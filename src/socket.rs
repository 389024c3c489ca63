use vstd::prelude::*;
use vstd::string::StringExecFns;

verus! {

/// The command that asks the compositor for its active window, sent as is:
/// no length prefix and no trailing newline.
pub const ACTIVE_WINDOW_REQUEST: &'static str = "j/activewindow";

/// Which piece of session state was missing.
#[derive(Clone, Copy, Debug, PartialEq, Eq, Structural)]
pub enum AddrError {
    RuntimeDirUnset,
    InstanceSignatureUnset,
}

impl AddrError {
    /// A description that names the missing variable.
    pub fn message(&self) -> (r: &'static str)
        ensures
            *self == AddrError::RuntimeDirUnset ==> r@ == "$XDG_RUNTIME_DIR not set"@,
            *self == AddrError::InstanceSignatureUnset ==> r@
                == "$HYPRLAND_INSTANCE_SIGNATURE not set"@,
    {
        match self {
            AddrError::RuntimeDirUnset => "$XDG_RUNTIME_DIR not set",
            AddrError::InstanceSignatureUnset => "$HYPRLAND_INSTANCE_SIGNATURE not set",
        }
    }
}

/// `<runtime dir>/hypr/<instance signature>/.socket.sock`
pub open spec fn socket_path(runtime_dir: Seq<char>, instance_sig: Seq<char>) -> Seq<char> {
    runtime_dir + "/hypr/"@ + instance_sig + "/.socket.sock"@
}

/// The path of the control socket, from the runtime directory and the
/// instance signature (`None` where the variable is unset). The values are
/// taken as they are; nothing is checked on disk.
pub fn get_socket_addr(xdg_runtime_dir: Option<String>, hypr_instance_sig: Option<String>) -> (r:
    Result<String, AddrError>)
    ensures
        xdg_runtime_dir is None ==> r == Err::<String, AddrError>(AddrError::RuntimeDirUnset),
        xdg_runtime_dir is Some && hypr_instance_sig is None ==> r == Err::<String, AddrError>(
            AddrError::InstanceSignatureUnset,
        ),
        xdg_runtime_dir is Some && hypr_instance_sig is Some ==> r is Ok && r->Ok_0@
            == socket_path(xdg_runtime_dir->Some_0@, hypr_instance_sig->Some_0@),
{
    let runtime_dir = match xdg_runtime_dir {
        Some(val) => val,
        None => return Err(AddrError::RuntimeDirUnset),
    };
    let instance_sig = match hypr_instance_sig {
        Some(val) => val,
        None => return Err(AddrError::InstanceSignatureUnset),
    };
    let mut addr = runtime_dir;
    addr.append("/hypr/");
    addr.append(instance_sig.as_str());
    addr.append("/.socket.sock");
    Ok(addr)
}

} // verus!
