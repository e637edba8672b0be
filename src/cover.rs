//! Where to look for a track's cover: the search pattern, and the bounded
//! search upwards from the track's directory, over directory listings that
//! the caller reads.
use vstd::prelude::*;
use crate::player_settings::PlayerSettings;
use crate::template::{process_template_placeholders, render};
use crate::text::{chars_of, push_char, string_of};
use crate::track::{file_name, Track};

verus! {

#[verifier::external_type_specification]
#[verifier::external_body]
pub struct ExRegex(regex::Regex);

/// Whether `regex::Regex::new` accepts a pattern.
pub uninterp spec fn regex_is_valid(pattern: Seq<char>) -> bool;

/// Whether the regular expression `pattern` matches somewhere in `text`.
pub uninterp spec fn regex_accepts(pattern: Seq<char>, text: Seq<char>) -> bool;

/// A compiled regular expression together with its pattern.
pub struct FileMatcher {
    pattern: String,
    regex: regex::Regex,
}

impl FileMatcher {
    /// The pattern that the matcher was compiled from.
    pub closed spec fn pattern(&self) -> Seq<char> {
        self.pattern@
    }
}

/// Relies on `regex::Regex::new`: whether the pattern compiles is a matter
/// of the pattern alone; the compiled expression is kept with its pattern.
#[verifier::external_body]
fn compile_regex(pattern: &str) -> (r: Option<FileMatcher>)
    ensures
        r is Some <==> regex_is_valid(pattern@),
        r is Some ==> r->0.pattern() == pattern@,
{
    match regex::Regex::new(pattern) {
        Ok(regex) => Some(FileMatcher { pattern: pattern.to_string(), regex }),
        Err(_) => None,
    }
}

/// Relies on `regex::Regex::is_match`: whether the expression matches
/// anywhere in the text.
#[verifier::external_body]
fn regex_matches(m: &FileMatcher, text: &str) -> (r: bool)
    ensures
        r == regex_accepts(m.pattern(), text@),
{
    m.regex.is_match(text)
}

impl FileMatcher {
    /// Compiles a pattern; a pattern that is not a valid regular expression
    /// gives `None`.
    pub fn new(pattern: &str) -> (r: Option<FileMatcher>)
        ensures
            r is Some <==> regex_is_valid(pattern@),
            r is Some ==> r->0.pattern() == pattern@,
    {
        compile_regex(pattern)
    }

    /// Whether the expression matches somewhere in `name`.
    pub fn is_match(&self, name: &str) -> (r: bool)
        ensures
            r == regex_accepts(self.pattern(), name@),
    {
        regex_matches(self, name)
    }
}

/// The first of `names`, from index `i` on, that `pattern` matches.
pub open spec fn match_from(names: Seq<Seq<char>>, pattern: Seq<char>, i: int) -> Option<int>
    decreases names.len() - i,
{
    if i < 0 || i >= names.len() {
        None
    } else if regex_accepts(pattern, names[i]) {
        Some(i)
    } else {
        match_from(names, pattern, i + 1)
    }
}

/// The first match at the first level, from `level` up to `max_depth`, that
/// holds one: the level and the index of the name in it. Level 0 is the
/// starting directory, level 1 its parent, and so on; `levels` ends where
/// there is no parent.
pub open spec fn search_from(
    levels: Seq<Seq<Seq<char>>>,
    pattern: Seq<char>,
    level: int,
    max_depth: int,
) -> Option<(int, int)>
    decreases levels.len() - level,
{
    if level < 0 || level >= levels.len() || level > max_depth {
        None
    } else {
        match match_from(levels[level], pattern, 0) {
            Some(i) => Some((level, i)),
            None => search_from(levels, pattern, level + 1, max_depth),
        }
    }
}

/// The views of a listing.
pub open spec fn listing(v: Seq<String>) -> Seq<Seq<char>> {
    v.map_values(|s: String| s@)
}

/// The views of the listings of several levels.
pub open spec fn listings(v: Seq<Vec<String>>) -> Seq<Seq<Seq<char>>> {
    v.map_values(|l: Vec<String>| listing(l@))
}

/// The first of the file names of one directory that the matcher matches.
pub fn first_match(names: &Vec<String>, m: &FileMatcher) -> (r: Option<usize>)
    ensures
        r matches Some(i) ==> match_from(listing(names@), m.pattern(), 0) == Some(i as int),
        r is None ==> match_from(listing(names@), m.pattern(), 0) is None,
{
    let ghost ns = listing(names@);
    let mut i: usize = names.len();
    let mut found: Option<usize> = None;
    while i > 0
        invariant
            i <= names@.len(),
            ns == listing(names@),
            found matches Some(j) ==> match_from(ns, m.pattern(), i as int) == Some(j as int),
            found is None ==> match_from(ns, m.pattern(), i as int) is None,
        decreases i,
    {
        i = i - 1;
        assert(ns[i as int] == names@[i as int]@);
        if m.is_match(names[i].as_str()) {
            found = Some(i);
        }
    }
    found
}

/// The bounded search upwards: the first level, up to `max_depth` parents
/// above the start, whose listing holds a name that the matcher matches, and
/// the first such name in it.
pub fn search_levels(levels: &Vec<Vec<String>>, max_depth: u8, m: &FileMatcher) -> (r: Option<
    (usize, usize),
>)
    ensures
        r matches Some((l, i)) ==> search_from(listings(levels@), m.pattern(), 0, max_depth as int)
            == Some((l as int, i as int)),
        r is None ==> search_from(listings(levels@), m.pattern(), 0, max_depth as int) is None,
{
    let ghost ls = listings(levels@);
    let mut level: usize = 0;
    while level < levels.len() && level <= max_depth as usize
        invariant
            ls == listings(levels@),
            search_from(ls, m.pattern(), level as int, max_depth as int) == search_from(
                ls,
                m.pattern(),
                0,
                max_depth as int,
            ),
        decreases levels@.len() - level,
    {
        assert(ls[level as int] == listing(levels@[level as int]@));
        match first_match(&levels[level], m) {
            Some(i) => {
                return Some((level, i));
            },
            None => {},
        }
        level = level + 1;
    }
    None
}

/// A match two levels up, with none at the two levels below it, is found
/// with a depth of two and missed with a depth of one.
pub proof fn lemma_search_depth(levels: Seq<Seq<Seq<char>>>, pattern: Seq<char>)
    requires
        levels.len() >= 3,
        match_from(levels[0], pattern, 0) is None,
        match_from(levels[1], pattern, 0) is None,
        match_from(levels[2], pattern, 0) is Some,
    ensures
        search_from(levels, pattern, 0, 1) is None,
        search_from(levels, pattern, 0, 2) == Some((2int, match_from(levels[2], pattern, 0)->0)),
{
    assert(search_from(levels, pattern, 2, 1) is None);
    assert(search_from(levels, pattern, 1, 1) is None);
    let m = match_from(levels[2], pattern, 0)->0;
    assert(search_from(levels, pattern, 2, 2) == Some((2int, m)));
    assert(search_from(levels, pattern, 1, 2) == Some((2int, m)));
}

/// Whether `s` holds `r#` at position `i`.
pub open spec fn raw_marker_at(s: Seq<char>, i: int) -> bool {
    0 <= i && i + 1 < s.len() && s[i] == 'r' && s[i + 1] == '#'
}

/// The pattern that a marked path component gives, read from left to
/// right: every `r#` is taken out, and every `*` becomes `.*`, which matches
/// any characters.
pub open spec fn raw_pattern(s: Seq<char>) -> Seq<char>
    decreases s.len(),
{
    if s.len() == 0 {
        s
    } else if raw_marker_at(s, 0) {
        raw_pattern(s.skip(2))
    } else if s[0] == '*' {
        seq!['.', '*'] + raw_pattern(s.skip(1))
    } else {
        seq![s[0]] + raw_pattern(s.skip(1))
    }
}

/// The directory part of a path: what stands before its last `/`, or
/// nothing where it has none.
pub open spec fn dir_part(p: Seq<char>) -> Seq<char> {
    if file_name(p).len() < p.len() {
        p.take(p.len() - file_name(p).len() - 1)
    } else {
        Seq::empty()
    }
}

/// The pattern of a cover file for a track of the given name: the name,
/// then anything, then an image extension at the end.
pub open spec fn default_cover_pattern(name: Seq<char>) -> Seq<char> {
    "("@ + name + ").*\\.(jpg|jpeg|png|gif)$"@
}

/// The directory to search from and the pattern to search for. A last path
/// component that holds `r#` is a pattern of its own (see `raw_pattern`),
/// and the search starts in the directory above it; else the search starts
/// at the path, for a file named after the track.
pub open spec fn cover_search(path: Seq<char>, name: Seq<char>) -> (Seq<char>, Seq<char>) {
    let last = file_name(path);
    if exists|i: int| raw_marker_at(last, i) {
        (dir_part(path), raw_pattern(last))
    } else {
        (path, default_cover_pattern(name))
    }
}

proof fn lemma_file_name_len(p: Seq<char>)
    ensures
        file_name(p).len() <= p.len(),
        file_name(p) == p.skip(p.len() - file_name(p).len()),
        file_name(p).len() < p.len() ==> p[p.len() - file_name(p).len() - 1] == '/',
    decreases p.len(),
{
    if p.len() > 0 && p.last() != '/' {
        lemma_file_name_len(p.drop_last());
        let q = p.drop_last();
        assert(file_name(p) =~= q.skip(q.len() - file_name(q).len()).push(p.last()));
        assert(p.skip(p.len() - file_name(p).len()) =~= file_name(p));
        if file_name(p).len() < p.len() {
            assert(p[p.len() - file_name(p).len() - 1] == q[q.len() - file_name(q).len() - 1]);
        }
    } else if p.len() > 0 {
        assert(p.skip(p.len() as int) =~= Seq::<char>::empty());
    }
}

/// Where to search for a track's cover, and for what.
pub fn cover_search_request(path: &str, track_name: &str) -> (r: (String, String))
    ensures
        r.0@ == cover_search(path@, track_name@).0,
        r.1@ == cover_search(path@, track_name@).1,
{
    let cs = chars_of(path);
    let mut j = cs.len();
    while j > 0 && cs[j - 1] != '/'
        invariant
            j <= cs@.len(),
            forall|k: int| j <= k < cs@.len() ==> cs@[k] != '/',
        decreases j,
    {
        j = j - 1;
    }
    proof {
        crate::track::lemma_file_name(cs@, j as int);
        lemma_file_name_len(cs@);
    }
    let ghost last = file_name(path@);
    assert(last =~= cs@.skip(j as int));
    let mut marked = false;
    let mut i = j;
    while i < cs.len()
        invariant
            j <= i <= cs@.len(),
            marked <==> exists|x: int| j <= x < i && raw_marker_at(cs@, x),
        decreases cs@.len() - i,
    {
        if i + 1 < cs.len() && cs[i] == 'r' && cs[i + 1] == '#' {
            assert(raw_marker_at(cs@, i as int));
            marked = true;
        }
        i = i + 1;
    }
    proof {
        assert((exists|x: int| raw_marker_at(last, x)) == marked) by {
            if marked {
                let x = choose|x: int| j <= x < i && raw_marker_at(cs@, x);
                assert(raw_marker_at(last, x - j));
            }
            if exists|x: int| raw_marker_at(last, x) {
                let x = choose|x: int| raw_marker_at(last, x);
                assert(raw_marker_at(cs@, x + j));
            }
        }
    }
    let mut k = j;
    let mut out = String::new();
    while k < cs.len()
        invariant
            j <= k <= cs@.len(),
            last == cs@.skip(j as int),
            out@ + raw_pattern(cs@.skip(k as int)) == raw_pattern(last),
        decreases cs@.len() - k,
    {
        let ghost rest = cs@.skip(k as int);
        if k + 1 < cs.len() && cs[k] == 'r' && cs[k + 1] == '#' {
            assert(raw_marker_at(rest, 0));
            assert(rest.skip(2) =~= cs@.skip(k + 2));
            k = k + 2;
        } else {
            assert(!raw_marker_at(rest, 0));
            assert(rest.skip(1) =~= cs@.skip(k + 1));
            let ghost before = out@;
            if cs[k] == '*' {
                push_char(&mut out, '.');
            }
            push_char(&mut out, cs[k]);
            assert(out@ + raw_pattern(cs@.skip(k + 1)) =~= before + raw_pattern(
                rest,
            ));
            k = k + 1;
        }
    }
    proof {
        assert(cs@.skip(k as int).len() == 0);
        assert(out@ =~= raw_pattern(last));
    }
    if marked {
        let dir = if j > 0 {
            string_of(&cs, 0, j - 1)
        } else {
            String::new()
        };
        assert(dir@ =~= dir_part(path@));
        (dir, out)
    } else {
        let mut pattern = String::from_str("(");
        pattern.append(track_name);
        pattern.append(").*\\.(jpg|jpeg|png|gif)$");
        (String::from_str(path), pattern)
    }
}

/// The place to search from: the cover path template filled from the track
/// where one is configured, else the track's own path.
pub fn cover_location(template: &Option<String>, track: &Track, player: &PlayerSettings) -> (r:
    String)
    ensures
        r@ == (match template {
            Some(t) => render(t@, track@, *player),
            None => track.path@,
        }),
{
    match template {
        Some(t) => process_template_placeholders(t.as_str(), track, player),
        None => track.path.clone(),
    }
}

/// Which sources of a cover to try, in order: the picture embedded in the
/// track, unless an external file is forced; then an external file, unless
/// external files are turned off.
pub fn cover_plan(force_use_external_cover: bool, no_use_external_cover: bool) -> (r: (
    bool,
    bool,
))
    ensures
        r.0 == !force_use_external_cover,
        r.1 == !no_use_external_cover,
{
    (!force_use_external_cover, !no_use_external_cover)
}

} // verus!
