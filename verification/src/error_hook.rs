use vstd::prelude::*;
use vstd::string::StringSliceAdditionalSpecFns;
use crate::wasm::message;
use crate::wasm::push_all;
use crate::wasm::send_bytes;

verus! {

/// The stack of the caller as text: what `backtrace::Backtrace::new`
/// captures, printed by the `Debug` impl of `backtrace::Backtrace`. The text
/// depends on the program, the platform and the working directory, so
/// nothing is claimed of it.
#[verifier::external_body]
fn capture_stack() -> (stack: String) {
    format!("{:?}", backtrace::Backtrace::new())
}

/// The text of an error report: what went wrong, then the stack under a
/// heading of its own.
pub open spec fn report(info: Seq<u8>, stack: Seq<u8>) -> Seq<u8> {
    info + "\n\nStack:\n\n".spec_bytes() + stack + "\n\n".spec_bytes()
}

/// Lays out the error report for `info` and `stack` as a call to the host's
/// error channel.
pub fn error_report(info: &str, stack: &str) -> (data: Vec<u8>)
    ensures
        data@ == message(
            "console_error".spec_bytes(),
            report(info.spec_bytes(), stack.spec_bytes()),
        ),
{
    let mut text: Vec<u8> = Vec::new();
    push_all(&mut text, info.as_bytes());
    push_all(&mut text, "\n\nStack:\n\n".as_bytes());
    push_all(&mut text, stack.as_bytes());
    push_all(&mut text, "\n\n".as_bytes());
    assert(text@ =~= report(info.spec_bytes(), stack.spec_bytes()));
    send_bytes("console_error", text.as_slice())
}

/// Reports the failure described by `info` together with the stack at the
/// place of the call: the result is the call to the host's error channel.
pub fn hook(info: &str) -> (data: Vec<u8>)
    ensures
        exists|stack: Seq<u8>|
            data@ == message(
                "console_error".spec_bytes(),
                #[trigger] report(info.spec_bytes(), stack),
            ),
{
    let stack = capture_stack();
    error_report(info, stack.as_str())
}

} // verus!
