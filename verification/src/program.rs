//! The program: its identity and its one instruction, `initialize`.

use crate::accounts::{ErrorCode, Initialize};
use crate::address::{address_text, render_address};
use vstd::prelude::*;

verus! {

/// The address under which the program is deployed, in its text form.
pub const ID: &'static str = "EtCJbCfCYnVDuTjfSCNYsMVPGzJw4i1vX9yckhcFgHEM";

/// The text that opens the line the handler writes.
pub const LOG_PREFIX: &'static str = "Log our wallet: ";

/// The line written for a signer whose address reads `address`: the prefix,
/// then the address, and nothing else.
pub open spec fn log_line(address: Seq<char>) -> Seq<char> {
    LOG_PREFIX@ + address
}

/// A log line splits back into the prefix and the address it was made
/// from: the prefix comes first, the address follows at once, and the line
/// ends where the address ends.
pub proof fn lemma_log_line_parts(address: Seq<char>)
    ensures
        log_line(address).len() == LOG_PREFIX@.len() + address.len(),
        log_line(address).take(LOG_PREFIX@.len() as int) == LOG_PREFIX@,
        log_line(address).skip(LOG_PREFIX@.len() as int) == address,
{
}

/// Builds the line for a signer whose address reads `address`.
pub fn format_log_line(address: &str) -> (line: String)
    ensures
        line@ == log_line(address@),
{
    let mut line = String::from_str(LOG_PREFIX);
    line.append(address);
    line
}

/// Handles `initialize`: appends one line to `log`, naming the signer's
/// address, and leaves the accounts as they were.
///
/// The call always succeeds. The accounts it is given have passed the
/// checks of `Initialize::try_accounts`, since no others can be built: the
/// signer signed and is writable.
pub fn initialize(ctx: &mut Initialize, log: &mut Vec<String>) -> (result: Result<(), ErrorCode>)
    ensures
        result is Ok,
        *final(ctx) == *old(ctx),
        old(ctx)@.is_signer,
        old(ctx)@.is_writable,
        final(log).deep_view() == old(log).deep_view().push(
            log_line(address_text(old(ctx)@.key@)),
        ),
{
    let address = render_address(ctx.signer().key());
    let line = format_log_line(address.as_str());
    log.push(line);
    Ok(())
}

} // verus!
