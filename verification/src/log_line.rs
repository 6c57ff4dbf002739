//! Reading the status lines that `ct-agent channel` prints.

use vstd::prelude::*;

use crate::text::{contains, has_text, starts_with};

verus! {

/// `l` is one of `ct-agent`'s own status lines.
pub open spec fn log_line(l: Seq<char>) -> bool {
    "ct-agent channel:"@.is_prefix_of(l)
}

/// The rung of the relay ladder that the line `l` names, if it is a line that says which rung
/// carries the session. The front door goes before QUIC where such a line speaks of both.
pub open spec fn relay_transport(l: Seq<char>) -> Option<Seq<char>> {
    if !"ct-agent channel: relay leg via"@.is_prefix_of(l) {
        None
    } else if has_text(l, "front door"@) {
        Some("tcp_443"@)
    } else if has_text(l, "QUIC"@) {
        Some("quic"@)
    } else {
        None
    }
}

/// `l` is a status line that says that the broker or the relay took part.
pub open spec fn connection_line(l: Seq<char>) -> bool {
    log_line(l) && (has_text(l, "relay"@) || has_text(l, "brokered"@))
}

/// Decides whether `l` is one of `ct-agent`'s own status lines.
pub fn is_log_line(l: &str) -> (r: bool)
    ensures
        r == log_line(l@),
{
    starts_with(l, "ct-agent channel:")
}

/// Which rung of the relay ladder carried this session, as told by one of `ct-agent`'s
/// `ct-agent channel: relay leg via ...` lines: the QUIC relay port or the `:443` front door.
/// `None` for every other line.
pub fn relay_transport_from_log_line(l: &str) -> (r: Option<&'static str>)
    ensures
        match r {
            Some(t) => relay_transport(l@) == Some(t@),
            None => relay_transport(l@) is None,
        },
{
    if !starts_with(l, "ct-agent channel: relay leg via") {
        return None;
    }
    if contains(l, "front door") {
        Some("tcp_443")
    } else if contains(l, "QUIC") {
        Some("quic")
    } else {
        None
    }
}

/// Decides whether `l` is a status line that says that the broker or the relay took part.
pub(crate) fn is_connection_line(l: &str) -> (r: bool)
    ensures
        r == connection_line(l@),
{
    is_log_line(l) && (contains(l, "relay") || contains(l, "brokered"))
}

/// The transport is the QUIC relay port or the `:443` front door and never anything else, such as
/// a direct path: both members only ever meet at the relay.
pub proof fn transports_are_relayed(l: Seq<char>)
    ensures
        relay_transport(l) matches Some(t) ==> t == "quic"@ || t == "tcp_443"@,
{
}

/// A line that names a transport is a status line about the relay.
pub proof fn transport_lines_are_connection_lines(l: Seq<char>)
    requires
        relay_transport(l) is Some,
    ensures
        connection_line(l),
{
    reveal_strlit("relay");
    reveal_strlit("ct-agent channel:");
    reveal_strlit("ct-agent channel: relay leg via");
    let start = l.subrange(0, 31);
    assert(start == "ct-agent channel: relay leg via"@);
    assert(l.subrange(0, 17) =~= start.subrange(0, 17));
    assert(start.subrange(0, 17) =~= "ct-agent channel:"@);
    assert(l.subrange(18, 23) =~= start.subrange(18, 23));
    assert(start.subrange(18, 23) =~= "relay"@);
    assert(crate::text::occurs_at(l, "relay"@, 18));
}

/// A status line is one that starts as `ct-agent`'s do, and whatever follows does not matter.
pub proof fn status_lines_start_alike(l: Seq<char>, rest: Seq<char>)
    ensures
        log_line("ct-agent channel:"@ + rest),
        log_line(l) ==> exists|r: Seq<char>| l == #[trigger] ("ct-agent channel:"@ + r),
{
    let prefix = "ct-agent channel:"@;
    assert(prefix =~= (prefix + rest).subrange(0, prefix.len() as int));
    if log_line(l) {
        assert(l =~= prefix + l.skip(prefix.len() as int));
    }
}

/// Of a line that says which rung carries the session, only the words for the rungs matter, not
/// the address or anything else: it is the `:443` front door exactly if the line holds those
/// words, and QUIC exactly if it holds that word and not those.
pub proof fn rungs_are_told_by_their_words(l: Seq<char>)
    ensures
        "ct-agent channel: relay leg via"@.is_prefix_of(l) ==> {
            &&& relay_transport(l) == Some("tcp_443"@) <==> has_text(l, "front door"@)
            &&& relay_transport(l) == Some("quic"@) <==> has_text(l, "QUIC"@) && !has_text(
                l,
                "front door"@,
            )
            &&& relay_transport(l) is None <==> !has_text(l, "QUIC"@) && !has_text(l, "front door"@)
        },
        !"ct-agent channel: relay leg via"@.is_prefix_of(l) ==> relay_transport(l) is None,
{
    reveal_strlit("quic");
    reveal_strlit("tcp_443");
    assert("quic"@.len() == 4 && "tcp_443"@.len() == 7);
}

/// Two lines that agree on how they start and on which rungs they speak of tell the same.
pub proof fn addresses_do_not_matter(a: Seq<char>, b: Seq<char>)
    requires
        "ct-agent channel: relay leg via"@.is_prefix_of(a),
        "ct-agent channel: relay leg via"@.is_prefix_of(b),
        has_text(a, "QUIC"@) == has_text(b, "QUIC"@),
        has_text(a, "front door"@) == has_text(b, "front door"@),
    ensures
        relay_transport(a) == relay_transport(b),
{
}

/// A QUIC line tells QUIC whatever address it names, as long as no front door comes into it, and a
/// front-door line tells the front door whatever it names.
pub proof fn rungs_are_told_at_any_address(before: Seq<char>, after: Seq<char>)
    ensures
        ({
            let quic = "ct-agent channel: relay leg via"@ + before + "QUIC"@ + after;
            let door = "ct-agent channel: relay leg via"@ + before + "front door"@ + after;
            &&& !has_text(quic, "front door"@) ==> relay_transport(quic) == Some("quic"@)
            &&& relay_transport(door) == Some("tcp_443"@)
        }),
{
    let prefix = "ct-agent channel: relay leg via"@;
    let quic = prefix + before + "QUIC"@ + after;
    let door = prefix + before + "front door"@ + after;
    crate::text::parts_are_found(prefix + before, "QUIC"@, after);
    crate::text::parts_are_found(prefix + before, "front door"@, after);
    assert(prefix =~= quic.subrange(0, prefix.len() as int));
    assert(prefix =~= door.subrange(0, prefix.len() as int));
}

/// A connection line is a status line that holds one of two words.
pub proof fn connections_are_told_by_their_words(l: Seq<char>)
    ensures
        connection_line(l) <==> "ct-agent channel:"@.is_prefix_of(l) && (has_text(l, "relay"@)
            || has_text(l, "brokered"@)),
{
}

} // verus!
