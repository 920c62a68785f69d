//! Commands run inside running containers: the exec resource.
//!
//! An exec instance is created under a container, then started; the
//! start response is the multiplexed stream that [`crate::tty`]
//! decodes. The option types here shape the JSON request bodies; the
//! endpoint paths are computed eagerly so a stream never borrows from
//! its caller's arguments.

use vstd::prelude::*;

use crate::error::ClientError;

verus! {

/// One value of a JSON request-body parameter.
pub enum JsonParam {
    Str(String),
    Bool(bool),
    Num(u64),
    List(Vec<String>),
}

/// Mathematical value of a [`JsonParam`].
pub enum JsonParamView {
    Str(Seq<char>),
    Bool(bool),
    Num(u64),
    List(Seq<Seq<char>>),
}

/// The views of a sequence of strings.
pub open spec fn strs_view(v: Seq<String>) -> Seq<Seq<char>> {
    v.map_values(|s: String| s@)
}

impl View for JsonParam {
    type V = JsonParamView;

    open spec fn view(&self) -> JsonParamView {
        match self {
            JsonParam::Str(s) => JsonParamView::Str(s@),
            JsonParam::Bool(b) => JsonParamView::Bool(*b),
            JsonParam::Num(n) => JsonParamView::Num(*n),
            JsonParam::List(xs) => JsonParamView::List(strs_view(xs@)),
        }
    }
}

/// The views of a sequence of keyed parameters.
pub open spec fn pairs_view(s: Seq<(String, JsonParam)>) -> Seq<(Seq<char>, JsonParamView)> {
    s.map_values(|p: (String, JsonParam)| (p.0@, p.1@))
}

/// The JSON object text that the JSON library renders for these keyed
/// parameters: keys sorted, later values winning on a repeated key.
/// The text depends on the pairs alone, so it has a name that the
/// serializers' contracts can speak of.
pub uninterp spec fn json_object_text(pairs: Seq<(Seq<char>, JsonParamView)>) -> Seq<char>;

/// Relies on serde_json::Map::insert and serde_json::to_string: the
/// rendered object text depends on the inserted pairs alone, and on a
/// string-keyed map holding only strings, booleans, unsigned numbers
/// and string arrays the serializer has no error path, so the call
/// returns the text.
#[verifier::external_body]
fn params_to_json(pairs: &Vec<(String, JsonParam)>) -> (r: Result<String, serde_json::Error>)
    ensures
        r is Ok,
        r matches Ok(s) ==> s@ == json_object_text(pairs_view(pairs@)),
{
    let mut m = serde_json::Map::new();
    for (k, v) in pairs.iter() {
        let jv = match v {
            JsonParam::Str(s) => serde_json::Value::String(s.clone()),
            JsonParam::Bool(b) => serde_json::Value::Bool(*b),
            JsonParam::Num(n) => serde_json::Value::Number(serde_json::Number::from(*n)),
            JsonParam::List(xs) => serde_json::Value::Array(
                xs.iter().map(|x| serde_json::Value::String(x.clone())).collect(),
            ),
        };
        m.insert(k.clone(), jv);
    }
    serde_json::to_string(&m)
}

/// Mathematical value of the exec-creation options.
#[verifier::ext_equal]
pub struct ExecOptsView {
    pub cmd: Seq<Seq<char>>,
    pub env: Seq<Seq<char>>,
    pub attach_stdout: Option<bool>,
    pub attach_stderr: Option<bool>,
    pub tty: Option<bool>,
    pub privileged: Option<bool>,
    pub detach_keys: Option<Seq<char>>,
    pub user: Option<Seq<char>>,
    pub working_dir: Option<Seq<char>>,
}

/// The view of an optional string field.
pub open spec fn opt_str_view(o: Option<String>) -> Option<Seq<char>> {
    match o {
        Some(s) => Some(s@),
        None => None,
    }
}

/// The keyed parameter an optional boolean contributes.
pub open spec fn bool_pairs(key: Seq<char>, v: Option<bool>) -> Seq<(Seq<char>, JsonParamView)> {
    match v {
        Some(b) => seq![(key, JsonParamView::Bool(b))],
        None => seq![],
    }
}

/// The keyed parameter an optional string contributes.
pub open spec fn str_pairs(key: Seq<char>, v: Option<Seq<char>>) -> Seq<
    (Seq<char>, JsonParamView),
> {
    match v {
        Some(s) => seq![(key, JsonParamView::Str(s))],
        None => seq![],
    }
}

/// The keyed parameter a string list contributes; an empty list
/// contributes none.
pub open spec fn list_pairs(key: Seq<char>, v: Seq<Seq<char>>) -> Seq<
    (Seq<char>, JsonParamView),
> {
    if v.len() == 0 {
        seq![]
    } else {
        seq![(key, JsonParamView::List(v))]
    }
}

/// The keyed parameters of the exec-creation body, in the sorted key
/// order the JSON library renders: a key appears exactly when its
/// option was set.
pub open spec fn exec_opts_pairs(o: ExecOptsView) -> Seq<(Seq<char>, JsonParamView)> {
    bool_pairs("AttachStderr"@, o.attach_stderr) + bool_pairs("AttachStdout"@, o.attach_stdout)
        + list_pairs("Cmd"@, o.cmd) + str_pairs("DetachKeys"@, o.detach_keys) + list_pairs(
        "Env"@,
        o.env,
    ) + bool_pairs("Privileged"@, o.privileged) + bool_pairs("Tty"@, o.tty) + str_pairs(
        "User"@,
        o.user,
    ) + str_pairs("WorkingDir"@, o.working_dir)
}

/// The JSON body text of the exec-creation options.
pub open spec fn exec_opts_json(o: ExecOptsView) -> Seq<char> {
    json_object_text(exec_opts_pairs(o))
}

/// Options shaping the body of an exec-creation request.
pub struct ExecContainerOpts {
    cmd: Vec<String>,
    env: Vec<String>,
    attach_stdout: Option<bool>,
    attach_stderr: Option<bool>,
    tty: Option<bool>,
    privileged: Option<bool>,
    detach_keys: Option<String>,
    user: Option<String>,
    working_dir: Option<String>,
}

impl View for ExecContainerOpts {
    type V = ExecOptsView;

    closed spec fn view(&self) -> ExecOptsView {
        ExecOptsView {
            cmd: strs_view(self.cmd@),
            env: strs_view(self.env@),
            attach_stdout: self.attach_stdout,
            attach_stderr: self.attach_stderr,
            tty: self.tty,
            privileged: self.privileged,
            detach_keys: opt_str_view(self.detach_keys),
            user: opt_str_view(self.user),
            working_dir: opt_str_view(self.working_dir),
        }
    }
}

impl ExecContainerOpts {
    /// A builder with nothing set.
    pub fn builder() -> (b: ExecContainerOptsBuilder)
        ensures
            b@ == empty_exec_opts(),
    {
        ExecContainerOptsBuilder::default()
    }

    /// Render the options as the JSON body of the creation request.
    /// Every option is a plain value the JSON library always encodes,
    /// so the rendering always succeeds.
    pub fn serialize(&self) -> (r: Result<String, ClientError>)
        ensures
            r matches Ok(s) && s@ == exec_opts_json(self@),
    {
        let pairs = self.to_params();
        match params_to_json(&pairs) {
            Ok(s) => Ok(s),
            Err(_) => Err(ClientError::Serialization),
        }
    }

    /// Collect the keyed parameters of the body, in sorted key order.
    fn to_params(&self) -> (pairs: Vec<(String, JsonParam)>)
        ensures
            pairs_view(pairs@) == exec_opts_pairs(self@),
    {
        let mut pairs: Vec<(String, JsonParam)> = Vec::new();
        push_bool_param(&mut pairs, "AttachStderr", &self.attach_stderr);
        proof {
            assert(pairs_view(pairs@) =~= bool_pairs("AttachStderr"@, self@.attach_stderr));
        }
        push_bool_param(&mut pairs, "AttachStdout", &self.attach_stdout);
        push_list_param(&mut pairs, "Cmd", &self.cmd);
        push_str_param(&mut pairs, "DetachKeys", &self.detach_keys);
        push_list_param(&mut pairs, "Env", &self.env);
        push_bool_param(&mut pairs, "Privileged", &self.privileged);
        push_bool_param(&mut pairs, "Tty", &self.tty);
        push_str_param(&mut pairs, "User", &self.user);
        push_str_param(&mut pairs, "WorkingDir", &self.working_dir);
        proof {
            assert(pairs_view(pairs@) =~= exec_opts_pairs(self@));
        }
        pairs
    }
}

/// The options value with nothing set.
pub open spec fn empty_exec_opts() -> ExecOptsView {
    ExecOptsView {
        cmd: seq![],
        env: seq![],
        attach_stdout: None,
        attach_stderr: None,
        tty: None,
        privileged: None,
        detach_keys: None,
        user: None,
        working_dir: None,
    }
}

/// Append the parameter of an optional boolean.
fn push_bool_param(pairs: &mut Vec<(String, JsonParam)>, key: &str, v: &Option<bool>)
    ensures
        pairs_view(final(pairs)@) == pairs_view(old(pairs)@) + bool_pairs(key@, *v),
{
    match v {
        Some(b) => {
            let ghost prev = pairs@;
            pairs.push((key.to_owned(), JsonParam::Bool(*b)));
            proof {
                assert(pairs_view(pairs@) =~= pairs_view(prev) + bool_pairs(key@, *v));
            }
        },
        None => {
            proof {
                assert(pairs_view(pairs@) =~= pairs_view(pairs@) + bool_pairs(key@, *v));
            }
        },
    }
}

/// Append the parameter of an optional string.
fn push_str_param(pairs: &mut Vec<(String, JsonParam)>, key: &str, v: &Option<String>)
    ensures
        pairs_view(final(pairs)@) == pairs_view(old(pairs)@) + str_pairs(
            key@,
            opt_str_view(*v),
        ),
{
    match v {
        Some(s) => {
            let ghost prev = pairs@;
            pairs.push((key.to_owned(), JsonParam::Str(s.clone())));
            proof {
                assert(pairs_view(pairs@) =~= pairs_view(prev) + str_pairs(
                    key@,
                    opt_str_view(*v),
                ));
            }
        },
        None => {
            proof {
                assert(pairs_view(pairs@) =~= pairs_view(pairs@) + str_pairs(
                    key@,
                    opt_str_view(*v),
                ));
            }
        },
    }
}

/// Append the parameter of a string list; an empty list contributes
/// none.
fn push_list_param(pairs: &mut Vec<(String, JsonParam)>, key: &str, v: &Vec<String>)
    ensures
        pairs_view(final(pairs)@) == pairs_view(old(pairs)@) + list_pairs(key@, strs_view(v@)),
{
    if v.len() > 0 {
        let ghost prev = pairs@;
        pairs.push((key.to_owned(), JsonParam::List(clone_strs(v))));
        proof {
            assert(pairs_view(pairs@) =~= pairs_view(prev) + list_pairs(key@, strs_view(v@)));
        }
    } else {
        proof {
            assert(strs_view(v@) =~= Seq::<Seq<char>>::empty());
            assert(pairs_view(pairs@) =~= pairs_view(pairs@) + list_pairs(key@, strs_view(v@)));
        }
    }
}

/// Copy a vector of strings.
fn clone_strs(v: &Vec<String>) -> (out: Vec<String>)
    ensures
        out@ == v@,
{
    let mut out: Vec<String> = Vec::new();
    let mut k: usize = 0;
    while k < v.len()
        invariant
            k <= v.len(),
            out@ == v@.subrange(0, k as int),
        decreases v.len() - k,
    {
        out.push(v[k].clone());
        assert(out@ =~= v@.subrange(0, k + 1 as int));
        k = k + 1;
    }
    assert(out@ =~= v@);
    out
}

/// Builder for [`ExecContainerOpts`].
pub struct ExecContainerOptsBuilder {
    cmd: Vec<String>,
    env: Vec<String>,
    attach_stdout: Option<bool>,
    attach_stderr: Option<bool>,
    tty: Option<bool>,
    privileged: Option<bool>,
    detach_keys: Option<String>,
    user: Option<String>,
    working_dir: Option<String>,
}

impl View for ExecContainerOptsBuilder {
    type V = ExecOptsView;

    closed spec fn view(&self) -> ExecOptsView {
        ExecOptsView {
            cmd: strs_view(self.cmd@),
            env: strs_view(self.env@),
            attach_stdout: self.attach_stdout,
            attach_stderr: self.attach_stderr,
            tty: self.tty,
            privileged: self.privileged,
            detach_keys: opt_str_view(self.detach_keys),
            user: opt_str_view(self.user),
            working_dir: opt_str_view(self.working_dir),
        }
    }
}

impl Default for ExecContainerOptsBuilder {
    /// A builder with nothing set.
    fn default() -> (b: Self)
        ensures
            b@ == empty_exec_opts(),
    {
        ExecContainerOptsBuilder {
            cmd: Vec::new(),
            env: Vec::new(),
            attach_stdout: None,
            attach_stderr: None,
            tty: None,
            privileged: None,
            detach_keys: None,
            user: None,
            working_dir: None,
        }
    }
}

impl ExecContainerOptsBuilder {
    /// Command to run, as an array of strings; calls accumulate.
    pub fn cmd(self, cmds: Vec<String>) -> (b: Self)
        ensures
            b@ == (ExecOptsView { cmd: self@.cmd + strs_view(cmds@), ..self@ }),
    {
        let mut b = self;
        let ghost prev = b.cmd@;
        let mut k: usize = 0;
        while k < cmds.len()
            invariant
                k <= cmds.len(),
                b.cmd@ == prev + cmds@.subrange(0, k as int),
                b.env == self.env,
                b.attach_stdout == self.attach_stdout,
                b.attach_stderr == self.attach_stderr,
                b.tty == self.tty,
                b.privileged == self.privileged,
                b.detach_keys == self.detach_keys,
                b.user == self.user,
                b.working_dir == self.working_dir,
            decreases cmds.len() - k,
        {
            b.cmd.push(cmds[k].clone());
            assert(b.cmd@ =~= prev + cmds@.subrange(0, k + 1 as int));
            k = k + 1;
        }
        proof {
            assert(b.cmd@ =~= prev + cmds@);
            assert(strs_view(b.cmd@) =~= strs_view(prev) + strs_view(cmds@));
            assert(b@ =~= (ExecOptsView { cmd: self@.cmd + strs_view(cmds@), ..self@ }));
        }
        b
    }

    /// Environment variables in the form "VAR=value"; calls accumulate.
    pub fn env(self, envs: Vec<String>) -> (b: Self)
        ensures
            b@ == (ExecOptsView { env: self@.env + strs_view(envs@), ..self@ }),
    {
        let mut b = self;
        let ghost prev = b.env@;
        let mut k: usize = 0;
        while k < envs.len()
            invariant
                k <= envs.len(),
                b.env@ == prev + envs@.subrange(0, k as int),
                b.cmd == self.cmd,
                b.attach_stdout == self.attach_stdout,
                b.attach_stderr == self.attach_stderr,
                b.tty == self.tty,
                b.privileged == self.privileged,
                b.detach_keys == self.detach_keys,
                b.user == self.user,
                b.working_dir == self.working_dir,
            decreases envs.len() - k,
        {
            b.env.push(envs[k].clone());
            assert(b.env@ =~= prev + envs@.subrange(0, k + 1 as int));
            k = k + 1;
        }
        proof {
            assert(b.env@ =~= prev + envs@);
            assert(strs_view(b.env@) =~= strs_view(prev) + strs_view(envs@));
            assert(b@ =~= (ExecOptsView { env: self@.env + strs_view(envs@), ..self@ }));
        }
        b
    }

    /// Attach to stdout of the exec command.
    pub fn attach_stdout(self, stdout: bool) -> (b: Self)
        ensures
            b@ == (ExecOptsView { attach_stdout: Some(stdout), ..self@ }),
    {
        let b = ExecContainerOptsBuilder { attach_stdout: Some(stdout), ..self };
        proof {
            assert(b@ =~= (ExecOptsView { attach_stdout: Some(stdout), ..self@ }));
        }
        b
    }

    /// Attach to stderr of the exec command.
    pub fn attach_stderr(self, stderr: bool) -> (b: Self)
        ensures
            b@ == (ExecOptsView { attach_stderr: Some(stderr), ..self@ }),
    {
        let b = ExecContainerOptsBuilder { attach_stderr: Some(stderr), ..self };
        proof {
            assert(b@ =~= (ExecOptsView { attach_stderr: Some(stderr), ..self@ }));
        }
        b
    }

    /// Override the key sequence for detaching from the container.
    pub fn detach_keys(self, format: String) -> (b: Self)
        ensures
            b@ == (ExecOptsView { detach_keys: Some(format@), ..self@ }),
    {
        let ghost fv = format@;
        let b = ExecContainerOptsBuilder { detach_keys: Some(format), ..self };
        proof {
            assert(b@ =~= (ExecOptsView { detach_keys: Some(fv), ..self@ }));
        }
        b
    }

    /// Allocate a pseudo-terminal, which turns the start response into
    /// a raw passthrough stream.
    pub fn tty(self, allocate: bool) -> (b: Self)
        ensures
            b@ == (ExecOptsView { tty: Some(allocate), ..self@ }),
    {
        let b = ExecContainerOptsBuilder { tty: Some(allocate), ..self };
        proof {
            assert(b@ =~= (ExecOptsView { tty: Some(allocate), ..self@ }));
        }
        b
    }

    /// Run the exec process with extended privileges.
    pub fn privileged(self, privileged: bool) -> (b: Self)
        ensures
            b@ == (ExecOptsView { privileged: Some(privileged), ..self@ }),
    {
        let b = ExecContainerOptsBuilder { privileged: Some(privileged), ..self };
        proof {
            assert(b@ =~= (ExecOptsView { privileged: Some(privileged), ..self@ }));
        }
        b
    }

    /// User the exec process runs as.
    pub fn user(self, user: String) -> (b: Self)
        ensures
            b@ == (ExecOptsView { user: Some(user@), ..self@ }),
    {
        let ghost uv = user@;
        let b = ExecContainerOptsBuilder { user: Some(user), ..self };
        proof {
            assert(b@ =~= (ExecOptsView { user: Some(uv), ..self@ }));
        }
        b
    }

    /// Working directory the exec process starts in.
    pub fn working_dir(self, working_dir: String) -> (b: Self)
        ensures
            b@ == (ExecOptsView { working_dir: Some(working_dir@), ..self@ }),
    {
        let ghost wv = working_dir@;
        let b = ExecContainerOptsBuilder { working_dir: Some(working_dir), ..self };
        proof {
            assert(b@ =~= (ExecOptsView { working_dir: Some(wv), ..self@ }));
        }
        b
    }

    /// The options as built so far; the builder stays usable.
    pub fn build(&self) -> (o: ExecContainerOpts)
        ensures
            o@ == self@,
    {
        let o = ExecContainerOpts {
            cmd: clone_strs(&self.cmd),
            env: clone_strs(&self.env),
            attach_stdout: self.attach_stdout,
            attach_stderr: self.attach_stderr,
            tty: self.tty,
            privileged: self.privileged,
            detach_keys: clone_opt_str(&self.detach_keys),
            user: clone_opt_str(&self.user),
            working_dir: clone_opt_str(&self.working_dir),
        };
        proof {
            assert(o@ =~= self@);
        }
        o
    }
}

/// Copy an optional string.
fn clone_opt_str(v: &Option<String>) -> (out: Option<String>)
    ensures
        out == *v,
{
    match v {
        Some(s) => Some(s.clone()),
        None => None,
    }
}


/// Handle on one exec instance: its daemon-assigned identifier, held
/// independently of any connection so that endpoint paths can be
/// computed eagerly.
pub struct Exec {
    id: String,
}

impl View for Exec {
    type V = Seq<char>;

    closed spec fn view(&self) -> Seq<char> {
        self.id@
    }
}

impl Exec {
    /// Wrap a daemon-assigned exec identifier.
    fn new(id: String) -> (e: Exec)
        ensures
            e@ == id@,
    {
        Exec { id }
    }

    /// Operations on an already created exec instance. The caller is
    /// responsible for the instance actually existing; creating one
    /// first guarantees it.
    pub fn get(id: String) -> (e: Exec)
        ensures
            e@ == id@,
    {
        Exec::new(id)
    }

    /// The identifier of this exec instance.
    pub fn id(&self) -> (r: &String)
        ensures
            r@ == self@,
    {
        &self.id
    }

    /// The endpoint an exec instance is created under: the body of the
    /// creation request is [`ExecContainerOpts::serialize`].
    pub fn create_endpoint(container_id: &str) -> (r: String)
        ensures
            r@ == "/containers/"@ + container_id@ + "/exec"@,
    {
        let mut r = String::from_str("/containers/");
        r.append(container_id);
        r.append("/exec");
        r
    }

    /// The endpoint that starts this instance and answers with the
    /// multiplexed (or raw) output stream.
    pub fn start_endpoint(&self) -> (r: String)
        ensures
            r@ == "/exec/"@ + self@ + "/start"@,
    {
        let mut r = String::from_str("/exec/");
        r.append(self.id.as_str());
        r.append("/start");
        r
    }

    /// The endpoint that answers with this instance's details.
    pub fn inspect_endpoint(&self) -> (r: String)
        ensures
            r@ == "/exec/"@ + self@ + "/json"@,
    {
        let mut r = String::from_str("/exec/");
        r.append(self.id.as_str());
        r.append("/json");
        r
    }

    /// The endpoint that resizes this instance's pseudo-terminal: the
    /// body of the request is [`ExecResizeOpts::serialize`].
    pub fn resize_endpoint(&self) -> (r: String)
        ensures
            r@ == "/exec/"@ + self@ + "/resize"@,
    {
        let mut r = String::from_str("/exec/");
        r.append(self.id.as_str());
        r.append("/resize");
        r
    }
}

/// The JSON body text of the resize options.
pub open spec fn resize_opts_json(name: Option<u64>) -> Seq<char> {
    json_object_text(
        match name {
            Some(n) => seq![("Name"@, JsonParamView::Num(n))],
            None => seq![],
        },
    )
}

/// Options shaping the body of a pseudo-terminal resize request. Both
/// dimensions land under the single `Name` parameter key, each call
/// replacing the last, so the body carries at most one entry.
pub struct ExecResizeOpts {
    name: Option<u64>,
}

impl View for ExecResizeOpts {
    type V = Option<u64>;

    closed spec fn view(&self) -> Option<u64> {
        self.name
    }
}

impl ExecResizeOpts {
    /// Render the options as the JSON body of the resize request.
    /// The single optional entry is a plain number, so the rendering
    /// always succeeds.
    pub fn serialize(&self) -> (r: Result<String, ClientError>)
        ensures
            r matches Ok(s) && s@ == resize_opts_json(self@),
    {
        let mut pairs: Vec<(String, JsonParam)> = Vec::new();
        match &self.name {
            Some(n) => {
                pairs.push(("Name".to_owned(), JsonParam::Num(*n)));
                proof {
                    assert(pairs_view(pairs@) =~= seq![("Name"@, JsonParamView::Num(self@->0))]);
                }
            },
            None => {
                proof {
                    assert(pairs_view(pairs@) =~= Seq::<(Seq<char>, JsonParamView)>::empty());
                }
            },
        }
        match params_to_json(&pairs) {
            Ok(s) => Ok(s),
            Err(_) => Err(ClientError::Serialization),
        }
    }

    /// A builder with nothing set.
    pub fn builder() -> (b: ExecResizeOptsBuilder)
        ensures
            b@ is None,
    {
        ExecResizeOptsBuilder::new()
    }
}

/// Builder for [`ExecResizeOpts`].
pub struct ExecResizeOptsBuilder {
    name: Option<u64>,
}

impl View for ExecResizeOptsBuilder {
    type V = Option<u64>;

    closed spec fn view(&self) -> Option<u64> {
        self.name
    }
}

impl ExecResizeOptsBuilder {
    /// A builder with nothing set.
    pub(crate) fn new() -> (b: Self)
        ensures
            b@ is None,
    {
        ExecResizeOptsBuilder { name: None }
    }

    /// Height of the pseudo-terminal, in characters.
    pub fn height(self, height: u64) -> (b: Self)
        ensures
            b@ == Some(height),
    {
        ExecResizeOptsBuilder { name: Some(height) }
    }

    /// Width of the pseudo-terminal, in characters.
    pub fn width(self, width: u64) -> (b: Self)
        ensures
            b@ == Some(width),
    {
        ExecResizeOptsBuilder { name: Some(width) }
    }

    /// The options as built so far.
    pub fn build(&self) -> (o: ExecResizeOpts)
        ensures
            o@ == self@,
    {
        ExecResizeOpts { name: self.name }
    }
}

/// Details of an exec instance, as the inspect endpoint reports them.
pub struct ExecDetails {
    pub can_remove: bool,
    pub container_id: String,
    pub detach_keys: String,
    pub exit_code: Option<u64>,
    pub id: String,
    pub open_stderr: bool,
    pub open_stdin: bool,
    pub open_stdout: bool,
    pub process_config: ProcessConfig,
    pub running: bool,
    pub pid: u64,
}

/// The process an exec instance runs, as the inspect endpoint reports
/// it.
pub struct ProcessConfig {
    pub arguments: Vec<String>,
    pub entrypoint: String,
    pub privileged: bool,
    pub tty: bool,
    pub user: Option<String>,
}

} // verus!
