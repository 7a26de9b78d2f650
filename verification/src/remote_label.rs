//! The label that names a remote session: `user@host`, built from what the
//! SSH connection and the remote server report.

use vstd::prelude::*;

use crate::host_picker::opt_str_view;
use crate::text::{chars_of, copy_chars, extend_chars, extend_str, string_from_chars};

verus! {

/// Access to the localized copy that remote labels fall back on.
pub trait AppContextLike {
    /// The localized "unknown host" text of this context, as contracts
    /// speak of it.
    spec fn remote_host_unknown(&self) -> String;

    /// The label shown when neither a user nor a host is known.
    fn remote_host_unknown_text(&self) -> (r: String)
        ensures
            r@ == self.remote_host_unknown()@,
    ;
}

/// The host part of an SSH destination: whatever follows its last `@`, or
/// the whole destination when it names no user.
pub open spec fn ssh_host_spec(destination: Seq<char>) -> Seq<char>
    decreases destination.len(),
{
    if destination.len() == 0 {
        destination
    } else if destination.last() == '@' {
        Seq::empty()
    } else {
        ssh_host_spec(destination.drop_last()).push(destination.last())
    }
}

/// A host counts as known when it is given and not empty.
pub open spec fn known_host(host: Option<Seq<char>>) -> Option<Seq<char>> {
    match host {
        Some(h) => if h.len() > 0 {
            Some(h)
        } else {
            None
        },
        None => None,
    }
}

/// `user@host` when both are known, else whichever is known, else
/// `unknown`.
pub open spec fn user_host_label_spec(
    user: Seq<char>,
    host: Option<Seq<char>>,
    unknown: Seq<char>,
) -> Seq<char> {
    match known_host(host) {
        Some(h) => if user.len() > 0 {
            user + seq!['@'] + h
        } else {
            h
        },
        None => if user.len() > 0 {
            user
        } else {
            unknown
        },
    }
}

/// The host named by an SSH destination such as `user@host`: the part after
/// the last `@`, or the whole destination when it has no `@`.
pub fn connection_label_from_ssh_host(ssh_host: &str) -> (r: String)
    ensures
        r@ == ssh_host_spec(ssh_host@),
{
    let chars = chars_of(ssh_host);
    let mut start: usize = 0;
    let mut i: usize = 0;
    proof {
        assert(chars@.take(0) =~= Seq::<char>::empty());
    }
    while i < chars.len()
        invariant
            start <= i <= chars@.len(),
            ssh_host_spec(chars@.take(i as int)) == chars@.subrange(start as int, i as int),
        decreases chars@.len() - i,
    {
        assert(chars@.take(i + 1).drop_last() =~= chars@.take(i as int));
        if chars[i] == '@' {
            start = i + 1;
            assert(chars@.subrange(start as int, i + 1) =~= Seq::<char>::empty());
        } else {
            assert(chars@.subrange(start as int, i as int).push(chars@[i as int]) =~= chars@.subrange(
                start as int,
                i + 1,
            ));
        }
        i = i + 1;
    }
    assert(chars@.take(chars@.len() as int) =~= chars@);
    let mut out: Vec<char> = Vec::new();
    let mut j: usize = start;
    while j < chars.len()
        invariant
            start <= j <= chars@.len(),
            out@ == chars@.subrange(start as int, j as int),
        decreases chars@.len() - j,
    {
        out.push(chars[j]);
        assert(chars@.subrange(start as int, j as int).push(chars@[j as int]) =~= chars@.subrange(
            start as int,
            j + 1,
        ));
        j = j + 1;
    }
    string_from_chars(out.as_slice())
}

/// The label for a session given its user, its host, and the text to show
/// when neither is known (see [`user_host_label_spec`]).
pub fn connection_label_with_fallback(user: &str, host: Option<&str>, unknown: &str) -> (r: String)
    ensures
        r@ == user_host_label_spec(user@, opt_str_view(host), unknown@),
{
    let host_chars = match host {
        Some(h) => {
            let c = chars_of(h);
            if c.len() > 0 {
                Some(c)
            } else {
                None
            }
        },
        None => None,
    };
    let user_chars = chars_of(user);
    match host_chars {
        Some(h) => {
            if user_chars.len() > 0 {
                let mut out = copy_chars(user_chars.as_slice());
                out.push('@');
                extend_chars(&mut out, h.as_slice());
                string_from_chars(out.as_slice())
            } else {
                string_from_chars(h.as_slice())
            }
        },
        None => {
            if user_chars.len() > 0 {
                string_from_chars(user_chars.as_slice())
            } else {
                string_from_chars(chars_of(unknown).as_slice())
            }
        },
    }
}

/// The label for a session of `user` on `host`, in the `user@host` form of
/// remote development sessions. Only when neither is known does it ask
/// `ctx` for the localized "unknown host" text, which is then the label.
pub fn connection_label_from_user_and_host<C: AppContextLike>(
    user: &str,
    host: Option<&str>,
    ctx: &C,
) -> (r: String)
    ensures
        r@ == user_host_label_spec(user@, opt_str_view(host), ctx.remote_host_unknown()@),
{
    let user_known = user.len() > 0;
    let host_known = match host {
        Some(h) => h.len() > 0,
        None => false,
    };
    if user_known || host_known {
        connection_label_with_fallback(user, host, "")
    } else {
        let unknown = ctx.remote_host_unknown_text();
        connection_label_with_fallback(user, host, unknown.as_str())
    }
}

/// The host to show for a session: the SSH destination's host when the
/// session came in over SSH, else the hostname the remote server reported.
pub open spec fn session_host_spec(reported_hostname: Seq<char>, ssh_host: Option<Seq<char>>) -> Seq<
    char,
> {
    match ssh_host {
        Some(dest) => ssh_host_spec(dest),
        None => reported_hostname,
    }
}

/// The label of a remote session: the user together with the SSH
/// destination's host, which is preferred over the hostname that the remote
/// server reported.
pub fn connection_label_from_session_hosts<C: AppContextLike>(
    user: &str,
    reported_hostname: &str,
    ssh_host: Option<&str>,
    ctx: &C,
) -> (r: String)
    ensures
        r@ == user_host_label_spec(
            user@,
            Some(session_host_spec(reported_hostname@, opt_str_view(ssh_host))),
            ctx.remote_host_unknown()@,
        ),
{
    let host = match ssh_host {
        Some(dest) => connection_label_from_ssh_host(dest),
        None => string_from_chars(chars_of(reported_hostname).as_slice()),
    };
    connection_label_from_user_and_host(user, Some(host.as_str()), ctx)
}

} // verus!
