//! The command that queries the player, and what its reply means.
use vstd::prelude::*;
use crate::query::CmusQueryResponse;
use crate::text::{chars_of, is_space, is_space_char, views};
use crate::track::CmusError;

verus! {

/// The words of `s` from position `i` on, where `cur` holds the characters
/// of the word that is being read: the maximal runs of characters that are
/// not whitespace.
pub open spec fn words_from(s: Seq<char>, i: int, cur: Seq<char>) -> Seq<Seq<char>>
    decreases s.len() - i,
{
    if i < 0 || i >= s.len() {
        if cur.len() > 0 {
            seq![cur]
        } else {
            Seq::empty()
        }
    } else if is_space(s[i]) {
        (if cur.len() > 0 {
            seq![cur]
        } else {
            Seq::empty()
        }) + words_from(s, i + 1, Seq::empty())
    } else {
        words_from(s, i + 1, cur.push(s[i]))
    }
}

/// The whitespace-separated words of `s`.
pub open spec fn words(s: Seq<char>) -> Seq<Seq<char>> {
    words_from(s, 0, Seq::empty())
}

/// The arguments that follow the command's own words.
pub open spec fn query_options(socket: Option<Seq<char>>, password: Option<Seq<char>>) -> Seq<
    Seq<char>,
> {
    (match socket {
        Some(s) => seq!["--server"@, s],
        None => Seq::empty(),
    }) + (match password {
        Some(p) => seq!["--passwd"@, p],
        None => Seq::empty(),
    }) + seq!["-Q"@]
}

pub open spec fn opt_view(o: Option<String>) -> Option<Seq<char>> {
    match o {
        Some(s) => Some(s@),
        None => None,
    }
}

fn push_string(v: &mut Vec<String>, s: String)
    ensures
        views(final(v)@) == views(old(v)@).push(s@),
{
    let ghost before = v@;
    v.push(s);
    assert(views(v@) =~= views(before).push(s@));
}

/// The program and the arguments of the query: the words of the configured
/// command (which may itself hold arguments), then the socket and password
/// options where they are set, then `-Q`. A command without any word gives
/// `None`.
pub fn build_query_command(
    cmus_remote_bin: &str,
    socket_addr: &Option<String>,
    socket_pass: &Option<String>,
) -> (r: Option<Vec<String>>)
    ensures
        r is None <==> words(cmus_remote_bin@).len() == 0,
        r is Some ==> views(r->0@) == words(cmus_remote_bin@) + query_options(
            opt_view(*socket_addr),
            opt_view(*socket_pass),
        ),
{
    let cs = chars_of(cmus_remote_bin);
    let mut out: Vec<String> = Vec::new();
    let mut cur = String::new();
    let mut i: usize = 0;
    while i < cs.len()
        invariant
            cs@ == cmus_remote_bin@,
            i <= cs@.len(),
            views(out@) + words_from(cs@, i as int, cur@) == words(cmus_remote_bin@),
        decreases cs@.len() - i,
    {
        let c = cs[i];
        let ghost before = views(out@);
        let ghost word = cur@;
        if is_space_char(c) {
            if cur.as_str().unicode_len() > 0 {
                push_string(&mut out, cur);
                assert(views(out@) + words_from(cs@, i + 1, Seq::empty()) =~= before + (seq![word]
                    + words_from(cs@, i + 1, Seq::empty())));
            } else {
                assert(views(out@) + words_from(cs@, i + 1, Seq::empty()) =~= before + (
                Seq::empty() + words_from(cs@, i + 1, Seq::empty())));
            }
            cur = String::new();
        } else {
            crate::text::push_char(&mut cur, c);
        }
        i = i + 1;
    }
    if cur.as_str().unicode_len() > 0 {
        let ghost word = cur@;
        push_string(&mut out, cur);
        assert(views(out@) =~= words(cmus_remote_bin@));
    } else {
        assert(views(out@) =~= words(cmus_remote_bin@));
    }
    if out.len() == 0 {
        return None;
    }
    let ghost ws = views(out@);
    match socket_addr {
        Some(s) => {
            push_string(&mut out, String::from_str("--server"));
            push_string(&mut out, s.clone());
        },
        None => {},
    }
    match socket_pass {
        Some(p) => {
            push_string(&mut out, String::from_str("--passwd"));
            push_string(&mut out, p.clone());
        },
        None => {},
    }
    push_string(&mut out, String::from_str("-Q"));
    assert(views(out@) =~= ws + query_options(opt_view(*socket_addr), opt_view(*socket_pass)));
    Some(out)
}

/// What a reply of the query command means: a failed run is an error of the
/// player, with what it wrote to its error stream; else the reply is split
/// into its blocks, and a reply without a settings block is an unknown
/// error.
pub fn read_response(succeeded: bool, stdout: &str, stderr: &str) -> (r: Result<
    CmusQueryResponse,
    CmusError,
>)
    ensures
        !succeeded ==> (r matches Err(CmusError::CmusRunningError(m)) && m@ == stderr@),
        succeeded ==> (r is Ok <==> exists|i: int| crate::query::set_line_at(stdout@, i)),
        succeeded && r is Ok ==> {
            let q = r->Ok_0;
            &&& q.track_text() + q.settings_text() == stdout@
            &&& crate::query::set_line_at(stdout@, q.track_text().len() as int)
            &&& forall|j: int|
                0 <= j < q.track_text().len() ==> !crate::query::set_line_at(stdout@, j)
        },
        succeeded && r is Err ==> r->Err_0 is UnknownError,
{
    if !succeeded {
        return Err(CmusError::CmusRunningError(String::from_str(stderr)));
    }
    match CmusQueryResponse::from_str(stdout) {
        Ok(q) => Ok(q),
        Err(message) => Err(CmusError::UnknownError(message)),
    }
}

} // verus!
