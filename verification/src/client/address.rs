//! The page's address: its parts between the slashes, and the addresses
//! that are made from them.
use vstd::prelude::*;
use vstd::string::{StrSliceExecFns, StringExecFns};

use crate::number::{chars_of, parse_trimmed, parsed_u32, trimmed};

verus! {

/// The parts of a text between its slashes. A text with n slashes has n + 1
/// parts, some of which may be empty.
pub open spec fn parts(s: Seq<char>) -> Seq<Seq<char>>
    decreases s.len(),
{
    if s.len() == 0 {
        seq![Seq::empty()]
    } else {
        let before = parts(s.drop_last());
        if s.last() == '/' {
            before.push(Seq::empty())
        } else {
            before.drop_last().push(before.last().push(s.last()))
        }
    }
}

/// A part of a text by its position, counted from 0.
pub open spec fn part(s: Seq<char>, index: nat) -> Option<Seq<char>> {
    if index < parts(s).len() {
        Some(parts(s)[index as int])
    } else {
        None
    }
}

/// A part that is followed by a slash stays what it is, whatever follows.
pub proof fn lemma_parts_settle(s: Seq<char>, upto: int, index: int)
    requires
        0 <= upto <= s.len(),
        0 <= index,
        index + 1 < parts(s.take(upto)).len(),
    ensures
        parts(s).len() >= parts(s.take(upto)).len(),
        parts(s)[index] == parts(s.take(upto))[index],
    decreases s.len(),
{
    if upto == s.len() {
        assert(s.take(upto) =~= s);
    } else {
        assert(s.drop_last().take(upto) =~= s.take(upto));
        lemma_parts_settle(s.drop_last(), upto, index);
    }
}

/// Finds a part of a text by its position.
pub fn segment(url: &str, index: usize) -> (found: Option<String>)
    ensures
        match found {
            Some(text) => part(url@, index as nat) == Some(text@),
            None => part(url@, index as nat) is None,
        },
{
    let chars = chars_of(url);
    let mut count: usize = 0;
    let mut start: usize = 0;
    let mut i: usize = 0;
    assert(chars@.take(0) =~= Seq::<char>::empty());
    assert(chars@.subrange(0, 0) =~= Seq::<char>::empty());
    while i < chars.len()
        invariant
            chars@ == url@,
            start <= i <= chars.len(),
            count <= index,
            count <= i,
            parts(chars@.take(i as int)).len() == count + 1,
            parts(chars@.take(i as int)).last() == chars@.subrange(start as int, i as int),
        decreases chars.len() - i,
    {
        let ghost before = parts(chars@.take(i as int));
        proof {
            assert(chars@.take(i + 1).drop_last() =~= chars@.take(i as int));
        }
        if chars[i] == '/' {
            if count == index {
                proof {
                    lemma_parts_settle(chars@, i + 1, index as int);
                }
                let text = url.substring_char(start, i);
                return Some(String::from_str(text));
            }
            count = count + 1;
            start = i + 1;
            proof {
                assert(chars@.subrange(start as int, start as int) =~= Seq::<char>::empty());
            }
        } else {
            proof {
                assert(chars@.subrange(start as int, i + 1) =~= chars@.subrange(
                    start as int,
                    i as int,
                ).push(chars@[i as int]));
            }
        }
        i = i + 1;
    }
    assert(chars@.take(i as int) =~= chars@);
    if count == index {
        let text = url.substring_char(start, i);
        Some(String::from_str(text))
    } else {
        None
    }
}

/// The bound that a text asks for, and 1 where it asks for none.
pub open spec fn bound_or_one(text: Seq<char>) -> u32 {
    match parsed_u32(trimmed(text)) {
        Some(bound) => bound,
        None => 1,
    }
}

/// The bound in the address of a game against the computer: what stands
/// fifth between the slashes, read as a number, and 1 where that is no
/// number. `None` for an address with fewer parts.
pub open spec fn start_roll_in(url: Seq<char>) -> Option<u32> {
    match part(url, 4) {
        Some(text) => Some(bound_or_one(text)),
        None => None,
    }
}

/// Reads the bound in the address of a game against the computer.
pub fn start_roll_of(url: &str) -> (bound: Option<u32>)
    ensures
        bound == start_roll_in(url@),
{
    match segment(url, 4) {
        Some(text) => match parse_trimmed(text.as_str()) {
            Some(bound) => Some(bound),
            None => Some(1),
        },
        None => None,
    }
}

/// The scheme of the socket that goes with a page's scheme: secure for a
/// secure page.
pub open spec fn socket_scheme(protocol: Seq<char>) -> Seq<char> {
    if protocol == "https:"@ {
        "wss:"@
    } else {
        "ws:"@
    }
}

/// The address of a room's socket: the socket scheme, the page's host, and
/// the room's identity, which stands fourth between the slashes of the
/// page's address. `None` for an address with fewer parts.
pub open spec fn socket_address_text(protocol: Seq<char>, host: Seq<char>, url: Seq<char>) -> Option<
    Seq<char>,
> {
    match part(url, 3) {
        Some(id) => Some(socket_scheme(protocol) + "//"@ + host + "/ws/"@ + id),
        None => None,
    }
}

/// Makes the address of a room's socket from the page's address.
pub fn socket_address(protocol: &str, host: &str, url: &str) -> (address: Option<String>)
    ensures
        match address {
            Some(text) => socket_address_text(protocol@, host@, url@) == Some(text@),
            None => socket_address_text(protocol@, host@, url@) is None,
        },
{
    match segment(url, 3) {
        Some(id) => {
            let secure = String::from_str(protocol) == String::from_str("https:");
            let mut address = if secure {
                String::from_str("wss:")
            } else {
                String::from_str("ws:")
            };
            address.append("//");
            address.append(host);
            address.append("/ws/");
            address.append(id.as_str());
            Some(address)
        },
        None => None,
    }
}

/// The address at which a room's starting bound is recorded.
pub open spec fn post_address_text(protocol: Seq<char>, host: Seq<char>, id: Seq<char>) -> Seq<
    char,
> {
    protocol + "//"@ + host + "/ws/"@ + id
}

/// Makes the address at which a room's starting bound is recorded.
pub fn post_address(protocol: &str, host: &str, game_id: &str) -> (address: String)
    ensures
        address@ == post_address_text(protocol@, host@, game_id@),
{
    let mut address = String::from_str(protocol);
    address.append("//");
    address.append(host);
    address.append("/ws/");
    address.append(game_id);
    address
}

} // verus!
