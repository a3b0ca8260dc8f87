//! The rustdoc the generated client writes on each operation's method.

use vstd::prelude::*;

verus! {

/// What every client method's rustdoc closes on: a call carries the message and nothing else.
pub open spec fn no_context_note() -> Seq<char> {
    " No context is taken. A context is what an implementation needs and a caller has nothing to hand one to, so a call carries the message and nothing else."@
}

/// The rustdoc of the client method for the operation declared as `named`, carried on the wire
/// as `carried`: a one-way operation's says nothing is awaited beyond the send, a
/// request-and-reply operation's says what each failure arm means.
pub open spec fn method_doc_seq(named: Seq<char>, carried: Seq<char>, one_way: bool) -> Seq<char> {
    if one_way {
        " Sends `"@ + carried
            + "`, which expects no reply.\n\nNothing is awaited beyond the send, there being no reply to carry an error. The one failure it can report is its own: a message that fails its own `validate()` never reaches the transport, and the fault names the field.\n\n"@
            + no_context_note()
    } else {
        " Calls `"@ + carried + "` and waits for the answer.\n\n`Err(CallError::Operation(…))` is the error `"@
            + named
            + "` declared. `Err(CallError::Fault(…))` is a defect: the remote produced one, or this client refused the message it was about to send, in which case the transport was never reached.\n\n"@
            + no_context_note()
    }
}

/// The rustdoc of one operation's client method, as [`method_doc_seq`] spells it.
pub fn method_doc(named: &str, carried: &str, one_way: bool) -> (r: String)
    ensures
        r@ == method_doc_seq(named@, carried@, one_way),
{
    let mut r = String::new();
    if one_way {
        r.append(" Sends `");
        r.append(carried);
        r.append(
            "`, which expects no reply.\n\nNothing is awaited beyond the send, there being no reply to carry an error. The one failure it can report is its own: a message that fails its own `validate()` never reaches the transport, and the fault names the field.\n\n",
        );
    } else {
        r.append(" Calls `");
        r.append(carried);
        r.append("` and waits for the answer.\n\n`Err(CallError::Operation(…))` is the error `");
        r.append(named);
        r.append(
            "` declared. `Err(CallError::Fault(…))` is a defect: the remote produced one, or this client refused the message it was about to send, in which case the transport was never reached.\n\n",
        );
    }
    r.append(
        " No context is taken. A context is what an implementation needs and a caller has nothing to hand one to, so a call carries the message and nothing else.",
    );
    proof {
        reveal_strlit("");
    }
    assert(r@ =~= method_doc_seq(named@, carried@, one_way));
    r
}

} // verus!
