use docker_api::conn::{daemon_error, HttpMethod};
use docker_api::error::ClientError;
use docker_api::exec::{Exec, ExecContainerOpts, ExecResizeOpts};
use docker_api::service::ServiceFilter;
use docker_api::session::{prepare_exec_create, prepare_exec_start};

#[test]
fn exec_opts_serialize_exact_json() {
    let opts = ExecContainerOpts::builder()
        .cmd(vec!["ls".to_string(), "-la".to_string()])
        .env(vec!["VAR=value".to_string()])
        .attach_stdout(true)
        .attach_stderr(true)
        .user("root".to_string())
        .build();
    let body = opts.serialize().unwrap();
    assert_eq!(
        body,
        "{\"AttachStderr\":true,\"AttachStdout\":true,\"Cmd\":[\"ls\",\"-la\"],\
         \"Env\":[\"VAR=value\"],\"User\":\"root\"}"
    );
}

#[test]
fn exec_opts_empty_builder_serializes_empty_object() {
    let opts = ExecContainerOpts::builder().build();
    assert_eq!(opts.serialize().unwrap(), "{}");
}

#[test]
fn exec_opts_cmd_calls_accumulate() {
    let opts = ExecContainerOpts::builder()
        .cmd(vec!["echo".to_string()])
        .cmd(vec!["hi".to_string()])
        .build();
    assert_eq!(opts.serialize().unwrap(), "{\"Cmd\":[\"echo\",\"hi\"]}");
}

#[test]
fn exec_opts_all_scalar_fields() {
    let opts = ExecContainerOpts::builder()
        .tty(true)
        .privileged(false)
        .detach_keys("ctrl-p".to_string())
        .working_dir("/tmp".to_string())
        .build();
    assert_eq!(
        opts.serialize().unwrap(),
        "{\"DetachKeys\":\"ctrl-p\",\"Privileged\":false,\"Tty\":true,\"WorkingDir\":\"/tmp\"}"
    );
}

#[test]
fn resize_opts_last_dimension_wins() {
    let opts = ExecResizeOpts::builder().height(40).width(80).build();
    assert_eq!(opts.serialize().unwrap(), "{\"Name\":80}");
    let empty = ExecResizeOpts::builder().build();
    assert_eq!(empty.serialize().unwrap(), "{}");
}

#[test]
fn exec_endpoints() {
    let e = Exec::get("deadbeef".to_string());
    assert_eq!(e.id(), "deadbeef");
    assert_eq!(e.start_endpoint(), "/exec/deadbeef/start");
    assert_eq!(e.inspect_endpoint(), "/exec/deadbeef/json");
    assert_eq!(e.resize_endpoint(), "/exec/deadbeef/resize");
    assert_eq!(Exec::create_endpoint("cafe"), "/containers/cafe/exec");
}

#[test]
fn prepared_exec_requests() {
    let opts = ExecContainerOpts::builder().attach_stdout(true).build();
    let create = prepare_exec_create("cafe", &opts).unwrap();
    assert_eq!(create.method, HttpMethod::Post);
    assert_eq!(create.path, "/containers/cafe/exec");
    assert_eq!(create.body.as_deref(), Some("{\"AttachStdout\":true}"));

    let start = prepare_exec_start(&Exec::get("idx".to_string()));
    assert_eq!(start.method, HttpMethod::Post);
    assert_eq!(start.path, "/exec/idx/start");
    assert_eq!(start.body.as_deref(), Some("{}"));
}

#[test]
fn service_filter_query_pairs() {
    assert_eq!(ServiceFilter::Id("i1".to_string()).query_key_val(), ("id", "i1".to_string()));
    assert_eq!(
        ServiceFilter::Label("l=v".to_string()).query_key_val(),
        ("label", "l=v".to_string())
    );
    assert_eq!(
        ServiceFilter::ReplicatedMode.query_key_val(),
        ("mode", "replicated".to_string())
    );
    assert_eq!(ServiceFilter::GlobalMode.query_key_val(), ("mode", "global".to_string()));
    assert_eq!(ServiceFilter::Name("n".to_string()).query_key_val(), ("name", "n".to_string()));
}

#[test]
fn daemon_error_takes_structured_message() {
    match daemon_error(500, b"{\"message\":\"no such container\"}") {
        ClientError::Daemon(status, message) => {
            assert_eq!(status, 500);
            assert_eq!(message, "no such container");
        }
        other => panic!("unexpected error: {:?}", other),
    }
}

#[test]
fn daemon_error_falls_back_to_body_text() {
    match daemon_error(502, b"bad gateway") {
        ClientError::Daemon(status, message) => {
            assert_eq!(status, 502);
            assert_eq!(message, "bad gateway");
        }
        other => panic!("unexpected error: {:?}", other),
    }
}
