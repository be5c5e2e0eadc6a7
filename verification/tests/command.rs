use tunnel_supervisor::command::{helper_command, target_url};

#[test]
fn helper_is_started_with_the_fixed_arguments() {
    let command = helper_command(8080);
    assert_eq!(command.program, "cloudflared");
    assert_eq!(
        command.args,
        vec!["tunnel".to_string(), "--url".to_string(), "http://127.0.0.1:8080".to_string()]
    );
}

#[test]
fn target_is_the_local_service_on_the_port() {
    assert_eq!(target_url(3000), "http://127.0.0.1:3000");
    assert_eq!(target_url(0), "http://127.0.0.1:0");
    assert_eq!(target_url(7), "http://127.0.0.1:7");
    assert_eq!(target_url(10), "http://127.0.0.1:10");
    assert_eq!(target_url(443), "http://127.0.0.1:443");
    assert_eq!(target_url(10000), "http://127.0.0.1:10000");
    assert_eq!(target_url(65535), "http://127.0.0.1:65535");
}

#[test]
fn target_is_written_as_the_standard_library_writes_the_port() {
    let mut port: u16 = 0;
    loop {
        assert_eq!(target_url(port), format!("http://127.0.0.1:{}", port));
        if port == u16::MAX {
            break;
        }
        port += 1;
    }
}
