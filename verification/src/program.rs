//! The program entry point: the `initialize` instruction, the account schema
//! it declares, and the host pieces an invocation touches — the invocation
//! context and the append-only log channel.

use vstd::prelude::*;
use vstd::string::*;
use crate::id::base58_of;

verus! {

/// The account schema of `initialize`: the instruction requires no accounts.
#[derive(Debug)]
pub struct Initialize {}

/// Why the host's account-validation layer refused to dispatch an invocation.
#[derive(Clone, Copy, Debug, PartialEq, Eq, Structural)]
pub enum DispatchError {
    /// The caller supplied an account the schema does not declare.
    UnexpectedAccount,
}

/// The host's append-only log channel: the lines written so far, in order.
pub struct Log {
    lines: Vec<String>,
}

impl View for Log {
    type V = Seq<Seq<char>>;

    closed spec fn view(&self) -> Seq<Seq<char>> {
        self.lines@.map_values(|s: String| s@)
    }
}

impl Log {
    /// A channel with nothing written yet.
    pub fn new() -> (r: Log)
        ensures
            r@ == Seq::<Seq<char>>::empty(),
    {
        let r = Log { lines: Vec::new() };
        proof {
            assert(r@ =~= Seq::<Seq<char>>::empty());
        }
        r
    }

    /// Append one line. The channel cannot fail and keeps everything written.
    pub fn emit(&mut self, line: String)
        ensures
            final(self)@ == old(self)@.push(line@),
    {
        self.lines.push(line);
        proof {
            assert(self@ =~= old(self)@.push(line@));
        }
    }

    /// How many lines have been written.
    pub fn len(&self) -> (n: usize)
        ensures
            n == self@.len(),
    {
        self.lines.len()
    }

    /// The line written `i`-th, counting from zero.
    pub fn line(&self, i: usize) -> (r: &String)
        requires
            i < self@.len(),
        ensures
            r@ == self@[i as int],
    {
        &self.lines[i]
    }
}

/// The ephemeral per-call structure the host builds before dispatch: the
/// program's own address and the accounts the schema admitted.
pub struct Context {
    pub program_id: [u8; 32],
    pub accounts: Initialize,
}

/// Validate the accounts a caller supplied against the `Initialize` schema.
/// The schema declares no accounts, so exactly the empty list is admitted;
/// anything more is refused before the instruction body can run.
pub fn try_accounts(accounts: &Vec<[u8; 32]>) -> (r: Result<Initialize, DispatchError>)
    ensures
        r is Ok <==> accounts@.len() == 0,
        accounts@.len() != 0 ==> r == Err::<Initialize, DispatchError>(
            DispatchError::UnexpectedAccount,
        ),
{
    if accounts.len() == 0 {
        Ok(Initialize {})
    } else {
        Err(DispatchError::UnexpectedAccount)
    }
}

/// The one log line an invocation emits: a fixed prefix followed by the
/// base58 rendering of the program identifier.
pub open spec fn spec_greeting(id: Seq<char>) -> Seq<char> {
    "Greetings from: "@ + id
}

/// What one invocation does to the host log: append the greeting for the
/// given program identifier, and touch nothing else.
pub open spec fn spec_invoke(log: Seq<Seq<char>>, program_id: Seq<u8>) -> Seq<Seq<char>> {
    log.push(spec_greeting(base58_of(program_id)))
}

/// Build the log line for an address: `Greetings from: ` and its rendering.
pub fn greeting_line(program_id: &[u8; 32]) -> (r: String)
    ensures
        r@ == spec_greeting(base58_of(program_id@)),
{
    let rendered = crate::id::render_base58(program_id);
    let mut line = String::from_str("Greetings from: ");
    line.append(rendered.as_str());
    line
}

/// The `initialize` instruction: greet by writing one diagnostic line with the
/// program's own identifier to the host log. Its only outcome is success, and
/// the log gains exactly that line.
pub fn initialize(ctx: &Context, log: &mut Log) -> (r: Result<(), DispatchError>)
    ensures
        r is Ok,
        final(log)@ == spec_invoke(old(log)@, ctx.program_id@),
{
    let line = greeting_line(&ctx.program_id);
    log.emit(line);
    Ok(())
}

/// The host's dispatch layer: validate the supplied accounts against the
/// schema, and only then run the instruction body. An invocation with an
/// unexpected account is refused at this boundary — the body never runs and
/// the log is untouched.
pub fn dispatch(program_id: &[u8; 32], accounts: &Vec<[u8; 32]>, log: &mut Log) -> (r: Result<
    (),
    DispatchError,
>)
    ensures
        accounts@.len() == 0 ==> r is Ok && final(log)@ == spec_invoke(old(log)@, program_id@),
        accounts@.len() != 0 ==> r == Err::<(), DispatchError>(DispatchError::UnexpectedAccount)
            && final(log)@ == old(log)@,
{
    let validated = match try_accounts(accounts) {
        Ok(accs) => accs,
        Err(e) => {
            return Err(e);
        },
    };
    let ctx = Context { program_id: *program_id, accounts: validated };
    initialize(&ctx, log)
}

/// The emitted line carries the identifier rendering verbatim: the greeting is
/// exactly a sixteen-character prefix followed by the rendering, character for
/// character, on every invocation.
pub proof fn lemma_greeting_embeds_id(id: Seq<char>)
    ensures
        spec_greeting(id).len() == 16 + id.len(),
        spec_greeting(id).subrange(16, spec_greeting(id).len() as int) == id,
{
    reveal_strlit("Greetings from: ");
    assert(spec_greeting(id).subrange(16, spec_greeting(id).len() as int) =~= id);
}

/// The host log after `n` invocations of the program, starting from `log`.
pub open spec fn spec_invoke_n(log: Seq<Seq<char>>, program_id: Seq<u8>, n: nat) -> Seq<Seq<char>>
    decreases n,
{
    if n == 0 {
        log
    } else {
        spec_invoke(spec_invoke_n(log, program_id, (n - 1) as nat), program_id)
    }
}

/// Invocation is idempotent in the only sense the program admits: each of `n`
/// invocations is an independent success (`initialize` returns `Ok` for every
/// context), none disturbs what was logged before it, and every one appends
/// the same single line. No other state exists to diverge.
pub proof fn lemma_invocations_independent(log: Seq<Seq<char>>, program_id: Seq<u8>, n: nat)
    ensures
        spec_invoke_n(log, program_id, n).len() == log.len() + n,
        forall|i: int| 0 <= i < log.len() ==> spec_invoke_n(log, program_id, n)[i] == log[i],
        forall|i: int|
            log.len() <= i < log.len() + n ==> spec_invoke_n(log, program_id, n)[i]
                == spec_greeting(base58_of(program_id)),
    decreases n,
{
    if n > 0 {
        lemma_invocations_independent(log, program_id, (n - 1) as nat);
    }
}

} // verus!
