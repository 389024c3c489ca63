use hypr_active::{get_socket_addr, AddrError, ACTIVE_WINDOW_REQUEST};

#[test]
fn resolves_path_from_both_values() {
    let r = get_socket_addr(Some("/run/user/1000".to_string()), Some("abc123".to_string()));
    assert_eq!(r, Ok("/run/user/1000/hypr/abc123/.socket.sock".to_string()));
}

#[test]
fn resolves_values_without_transformation() {
    let r = get_socket_addr(Some("/tmp/x y/".to_string()), Some("sig_with/slash".to_string()));
    assert_eq!(r, Ok("/tmp/x y//hypr/sig_with/slash/.socket.sock".to_string()));
}

#[test]
fn empty_values_are_taken_as_they_are() {
    let r = get_socket_addr(Some(String::new()), Some(String::new()));
    assert_eq!(r, Ok("/hypr//.socket.sock".to_string()));
}

#[test]
fn missing_runtime_dir_is_named() {
    let r = get_socket_addr(None, Some("abc123".to_string()));
    assert_eq!(r, Err(AddrError::RuntimeDirUnset));
    assert_eq!(AddrError::RuntimeDirUnset.message(), "$XDG_RUNTIME_DIR not set");
}

#[test]
fn missing_instance_signature_is_named() {
    let r = get_socket_addr(Some("/run/user/1000".to_string()), None);
    assert_eq!(r, Err(AddrError::InstanceSignatureUnset));
    assert_eq!(
        AddrError::InstanceSignatureUnset.message(),
        "$HYPRLAND_INSTANCE_SIGNATURE not set"
    );
}

#[test]
fn both_missing_reports_runtime_dir_first() {
    assert_eq!(get_socket_addr(None, None), Err(AddrError::RuntimeDirUnset));
}

#[test]
fn request_is_the_bare_command() {
    assert_eq!(ACTIVE_WINDOW_REQUEST.as_bytes(), b"j/activewindow");
}
