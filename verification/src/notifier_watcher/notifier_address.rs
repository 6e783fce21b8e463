//! Registration strings and the bus coordinates they stand for.

use crate::error::{ErrorView, StatusNotifierWatcherError};
use crate::text::{chars_of, find_char, lemma_position, lemma_position_is, position};
use vstd::prelude::*;

verus! {

/// The two coordinates of a notifier item on the bus.
#[derive(Debug, Clone, PartialEq, Eq)]
pub struct NotifierAddress {
    /// Bus name of the item's owner, for example `:1.522`.
    pub destination: String,
    /// Object path of the item, for example
    /// `/org/ayatana/NotificationItem/Element1`.
    pub path: String,
}

/// Object path assumed for an item registered by its bus name alone.
pub open spec fn fallback_path() -> Seq<char> {
    "/StatusNotifierItem"@
}

/// What a registration string stands for: `(destination, path)`, or `None`
/// when it is not understood.
///
/// A string holding a slash is cut before its first slash. A string without
/// one is a destination of its own when it begins with a colon.
pub open spec fn parse_service(s: Seq<char>) -> Option<(Seq<char>, Seq<char>)> {
    let i = position(s, '/');
    if i < s.len() {
        Some((s.subrange(0, i), s.subrange(i, s.len() as int)))
    } else if s.len() > 0 && s[0] == ':' {
        Some((s, fallback_path()))
    } else {
        None
    }
}

impl NotifierAddress {
    /// Splits a registration string into destination and object path.
    pub fn from_notifier_service(service: &str) -> (r: Result<NotifierAddress, StatusNotifierWatcherError>)
        ensures
            match r {
                Ok(a) => parse_service(service@) == Some((a.destination@, a.path@))
                    && a.path@.len() > 0 && a.path@[0] == '/',
                Err(e) => parse_service(service@) is None
                    && e@ == ErrorView::DbusAddressError(service@),
            },
    {
        let chars = chars_of(service);
        let n: usize = chars.len();
        let i: usize = find_char(&chars, '/');
        proof {
            lemma_position(service@, '/');
            if parse_service(service@) is Some {
                lemma_path_begins_with_slash(service@);
            }
        }
        if i < n {
            Ok(
                NotifierAddress {
                    destination: String::from_str(service.substring_char(0, i)),
                    path: String::from_str(service.substring_char(i, n)),
                },
            )
        } else if n > 0 && chars[0] == ':' {
            Ok(
                NotifierAddress {
                    destination: String::from_str(service),
                    path: String::from_str("/StatusNotifierItem"),
                },
            )
        } else {
            Err(StatusNotifierWatcherError::DbusAddressError(String::from_str(service)))
        }
    }
}

/// The path of every address that a registration string stands for begins
/// with a slash.
pub proof fn lemma_path_begins_with_slash(s: Seq<char>)
    requires
        parse_service(s) is Some,
    ensures
        match parse_service(s) {
            Some((_, path)) => path.len() > 0 && path[0] == '/',
            None => false,
        },
{
    lemma_position(s, '/');
    reveal_strlit("/StatusNotifierItem");
}

/// The name of a sender followed by an object path is read back as that
/// name and that path: a registration string composed by the watcher stands
/// for the item it was composed for. The name holds no slash, and the path
/// begins with one.
pub proof fn lemma_composition_is_recovered(sender: Seq<char>, path: Seq<char>)
    requires
        !sender.contains('/'),
        path.len() > 0,
        path[0] == '/',
    ensures
        parse_service(sender + path) == Some((sender, path)),
{
    let s = sender + path;
    let i = sender.len() as int;
    assert forall|j: int| 0 <= j < i implies s[j] != '/' by {
        assert(sender.contains(s[j]));
    }
    assert(s[i] == path[0]);
    lemma_position_is(s, '/', i);
    assert(s.subrange(0, i) =~= sender);
    assert(s.subrange(i, s.len() as int) =~= path);
}

} // verus!
