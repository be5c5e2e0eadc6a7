use tunnel_supervisor::error::{SpawnFailure, TunnelError};

#[test]
fn already_running_message() {
    assert_eq!(TunnelError::AlreadyRunning.message(), "Tunnel is already running");
}

#[test]
fn spawn_failed_messages() {
    assert_eq!(
        TunnelError::SpawnFailed(SpawnFailure::Launch("no such file".to_string())).message(),
        "Failed to spawn sidecar: no such file"
    );
    assert_eq!(
        TunnelError::SpawnFailed(SpawnFailure::Command("not bundled".to_string())).message(),
        "Failed to create `cloudflared` binary command: not bundled"
    );
}

#[test]
fn url_not_found_message() {
    assert_eq!(TunnelError::UrlNotFound.message(), "Failed to get tunnel URL");
}

#[test]
fn kill_failed_message() {
    assert_eq!(
        TunnelError::KillFailed("permission denied".to_string()).message(),
        "Failed to stop tunnel: permission denied"
    );
    assert_eq!(TunnelError::KillFailed(String::new()).message(), "Failed to stop tunnel: ");
}

#[test]
fn no_port_configured_message() {
    assert_eq!(TunnelError::NoPortConfigured.message(), "No port configured for restart");
}
