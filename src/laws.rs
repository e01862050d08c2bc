//! Properties of the session lifecycle that follow from the operations'
//! contracts, stated over the same spec functions.
use crate::ctapi::{
    after_close, after_open, close_decision, exchange_decision, open_decision, open_target,
    reply_status, session_target, Transport,
};
use crate::settings::Settings;
use crate::status::Status;
use crate::text::{digits_value, integer_value, parse_i8};
use vstd::prelude::*;

verus! {

/// On a registry where nothing was opened yet, a close of any terminal ends
/// with `ERR_INVALID` and sends nothing; the close step only reads the
/// registry.
pub proof fn lemma_close_before_open(settings: Settings, ctn: u16)
    ensures
        close_decision(Map::empty(), settings, ctn) == Err::<(u16, u16), Status>(
            Status::ERR_INVALID,
        ),
{
}

/// After an open that the service answers with `0`, the terminal is recorded
/// with its port, and a second open of the same terminal, on any port, ends
/// with `ERR_INVALID` and sends nothing.
pub proof fn lemma_open_then_reopen(
    sessions: Map<u16, u16>,
    settings: Settings,
    ctn: u16,
    pn: u16,
    again_pn: u16,
    reply: Transport<String>,
)
    requires
        open_decision(sessions, settings, ctn, pn) is Ok,
        reply matches Transport::Delivered(text) && parse_i8(text@) == Some(0i8),
    ensures
        ({
            let (c, p) = open_target(settings, ctn, pn);
            let after = after_open(sessions, c, p, reply_status(reply));
            &&& reply_status(reply) == Status::OK
            &&& after.contains_key(c)
            &&& after[c] == p
            &&& open_decision(after, settings, ctn, again_pn) == Err::<(u16, u16), Status>(
                Status::ERR_INVALID,
            )
        }),
{
}

/// After a close of an open terminal that the service answers with `0`, the
/// terminal is no longer recorded, and a further close or exchange of it
/// ends with `ERR_INVALID` and sends nothing.
pub proof fn lemma_close_then_again(
    sessions: Map<u16, u16>,
    settings: Settings,
    ctn: u16,
    reply: Transport<String>,
)
    requires
        close_decision(sessions, settings, ctn) is Ok,
        reply matches Transport::Delivered(text) && parse_i8(text@) == Some(0i8),
    ensures
        ({
            let c = session_target(settings, ctn);
            let after = after_close(sessions, c, reply_status(reply));
            &&& reply_status(reply) == Status::OK
            &&& !after.contains_key(c)
            &&& close_decision(after, settings, ctn) == Err::<(u16, u16), Status>(
                Status::ERR_INVALID,
            )
            &&& exchange_decision(after, settings, ctn, true) == Err::<(u16, u16), Status>(
                Status::ERR_INVALID,
            )
        }),
{
}

/// An exchange with a terminal that was never opened ends with
/// `ERR_INVALID` and sends nothing.
pub proof fn lemma_exchange_unopened(sessions: Map<u16, u16>, settings: Settings, ctn: u16)
    requires
        !sessions.contains_key(session_target(settings, ctn)),
    ensures
        exchange_decision(sessions, settings, ctn, true) == Err::<(u16, u16), Status>(
            Status::ERR_INVALID,
        ),
{
}

/// An answer to an open or a close whose body is not an integer gives
/// `ERR_HTSI`, and neither verb changes the registry then.
pub proof fn lemma_unreadable_reply(sessions: Map<u16, u16>, ctn: u16, pn: u16, text: String)
    requires
        integer_value(text@) is None,
    ensures
        reply_status(Transport::Delivered(text)) == Status::ERR_HTSI,
        after_open(sessions, ctn, pn, Status::ERR_HTSI) == sessions,
        after_close(sessions, ctn, Status::ERR_HTSI) == sessions,
{
}

/// An answer `-11` to an open or a close gives `ERR_MEMORY`, and neither verb
/// changes the registry then.
pub proof fn lemma_memory_error_reply(sessions: Map<u16, u16>, ctn: u16, pn: u16, text: String)
    requires
        text@ == "-11"@,
    ensures
        reply_status(Transport::Delivered(text)) == Status::ERR_MEMORY,
        after_open(sessions, ctn, pn, Status::ERR_MEMORY) == sessions,
        after_close(sessions, ctn, Status::ERR_MEMORY) == sessions,
{
    reveal_strlit("-11");
    let body = text@.drop_first();
    assert(body =~= seq!['1', '1']);
    assert(body.drop_last() =~= seq!['1']);
    assert(seq!['1'].drop_last() =~= Seq::<char>::empty());
    assert(digits_value(Seq::<char>::empty()) == 0);
    assert(seq!['1'].last() == '1');
    assert(('1' as u32) == 49);
    assert(digits_value(seq!['1']) == 1);
    assert(digits_value(body) == 11);
}

/// An exchange with a missing argument ends with `ERR_HTSI` and sends
/// nothing, whatever the registry holds.
pub proof fn lemma_missing_argument(sessions: Map<u16, u16>, settings: Settings, ctn: u16)
    ensures
        exchange_decision(sessions, settings, ctn, false) == Err::<(u16, u16), Status>(
            Status::ERR_HTSI,
        ),
{
}

} // verus!
