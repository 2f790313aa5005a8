//! The entry point handler.
//!
//! The host runtime invokes the program with an execution context:
//! the program's own identifier, the accounts the instruction declares
//! (none), and the program log.  The one instruction, `initialize`,
//! emits a single greeting record into the log and returns success; it
//! performs no validation and reads and writes no account state, so no
//! invocation can fail.

use vstd::prelude::*;
use vstd::string::StringExecFns;
use crate::id::ProgramId;
use crate::id::base58_of;
use crate::id::base58_text;

verus! {

/// The accounts required by `initialize`: none are declared, read,
/// written or validated.
pub struct Initialize {}

/// The execution context the host runtime supplies to an invocation:
/// the program's own identifier, the declared accounts, and the log
/// that invocations append their diagnostic records to.
pub struct Context {
    pub program_id: ProgramId,
    pub accounts: Initialize,
    pub log: Vec<String>,
}

/// The text of the log record emitted for a given identifier text.
pub open spec fn greeting_of(id_text: Seq<char>) -> Seq<char> {
    "Greetings from: "@ + id_text
}

/// The one record an invocation under this identifier emits.
pub open spec fn emitted_record(id: ProgramId) -> Seq<char> {
    greeting_of(base58_of(id@))
}

/// What one invocation of `initialize` does to the execution context:
/// it returns success, appends exactly one greeting record to the log,
/// and leaves the identifier and the accounts unchanged.
pub open spec fn invocation_step(pre: Context, post: Context, r: Result<(), ()>) -> bool {
    &&& r == Result::<(), ()>::Ok(())
    &&& post.log.deep_view() == pre.log.deep_view().push(emitted_record(pre.program_id))
    &&& post.program_id == pre.program_id
    &&& post.accounts == pre.accounts
}

/// The greeting record for a program identifier, as logged by
/// `initialize`.
pub fn greeting(id: &ProgramId) -> (r: String)
    ensures
        r@ == emitted_record(*id),
{
    let mut r = String::from_str("Greetings from: ");
    let text = base58_text(&id.bytes);
    r.append(text.as_str());
    r
}

/// The program's sole entry point: greet with the program's own
/// identifier and succeed.
pub fn initialize(ctx: &mut Context) -> (r: Result<(), ()>)
    ensures
        invocation_step(*old(ctx), *final(ctx), r),
{
    let record = greeting(&ctx.program_id);
    ctx.log.push(record);
    proof {
        assert(ctx.log.deep_view() =~= old(ctx).log.deep_view().push(
            emitted_record(old(ctx).program_id),
        ));
    }
    Ok(())
}

/// The emitted record carries the identifier text unmodified: the
/// record is exactly the greeting prefix followed by the identifier,
/// so the identifier is the record's suffix.
pub proof fn lemma_record_carries_id(id_text: Seq<char>)
    ensures
        greeting_of(id_text).len() == 16 + id_text.len(),
        greeting_of(id_text).subrange(16, greeting_of(id_text).len() as int) == id_text,
{
    reveal_strlit("Greetings from: ");
    assert(greeting_of(id_text).subrange(16, greeting_of(id_text).len() as int) =~= id_text);
}

/// Invocation is idempotent: two consecutive invocations both return
/// the same success result and emit equal log records, and the program
/// accumulates no state between them (the context outside the log is
/// exactly what it was).
pub proof fn lemma_invocation_idempotent(
    c0: Context,
    c1: Context,
    c2: Context,
    r1: Result<(), ()>,
    r2: Result<(), ()>,
)
    requires
        invocation_step(c0, c1, r1),
        invocation_step(c1, c2, r2),
    ensures
        r1 == r2,
        r1 is Ok,
        c2.program_id == c0.program_id,
        c2.accounts == c0.accounts,
        c2.log.deep_view() == c0.log.deep_view().push(emitted_record(c0.program_id)).push(
            emitted_record(c0.program_id),
        ),
{
}

} // verus!
