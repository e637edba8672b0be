//! Templates with `{key}` placeholders, filled from a track and the
//! player's settings.
use vstd::prelude::*;
use crate::player_settings::{aaa_mode_text, shuffle_text, PlayerSettings, Volume};
use crate::text::{chars_of, decimal, push_char, push_decimal, str_eq, string_of, views};
use crate::track::{display_name, status_text, Track, TrackView};

verus! {

pub open spec fn bool_text(b: bool) -> Seq<char> {
    if b {
        "true"@
    } else {
        "false"@
    }
}

/// The volume as one number where both channels agree, else as `left:right`.
pub open spec fn volume_text(v: Volume) -> Seq<char> {
    if v.left == v.right {
        decimal(v.left as nat)
    } else {
        decimal(v.left as nat) + ":"@ + decimal(v.right as nat)
    }
}

/// What a placeholder is replaced with: a field of the track, one of its
/// tags, a player setting, or nothing.
pub open spec fn placeholder_value(key: Seq<char>, t: TrackView, p: PlayerSettings) -> Seq<char> {
    if key == "status"@ {
        status_text(t.status)
    } else if key == "title"@ {
        display_name(t)
    } else if t.tags.contains_key(key) {
        t.tags[key]
    } else if key == "repeat"@ {
        bool_text(p.repeat)
    } else if key == "repeat_current"@ {
        bool_text(p.repeat_current)
    } else if key == "shuffle"@ {
        shuffle_text(p.shuffle)
    } else if key == "aaa_mode"@ {
        aaa_mode_text(p.aaa_mode)
    } else if key == "volume_left"@ {
        decimal(p.volume.left as nat)
    } else if key == "volume_right"@ {
        decimal(p.volume.right as nat)
    } else if key == "volume"@ {
        volume_text(p.volume)
    } else {
        Seq::empty()
    }
}

/// The output for template characters `i` onwards, where `key` holds the
/// characters of an open placeholder, if one is open. Text outside braces is
/// copied; a placeholder is replaced by its value; a `{` inside an open
/// placeholder, or the end of the template, gives back the open text as it
/// stood.
pub open spec fn render_from(
    tpl: Seq<char>,
    i: int,
    key: Option<Seq<char>>,
    t: TrackView,
    p: PlayerSettings,
) -> Seq<char>
    decreases tpl.len() - i,
{
    if i < 0 || i >= tpl.len() {
        match key {
            None => Seq::empty(),
            Some(k) => seq!['{'] + k,
        }
    } else {
        let c = tpl[i];
        match key {
            None => if c == '{' {
                render_from(tpl, i + 1, Some(Seq::empty()), t, p)
            } else {
                seq![c] + render_from(tpl, i + 1, None, t, p)
            },
            Some(k) => if c == '}' {
                placeholder_value(k, t, p) + render_from(tpl, i + 1, None, t, p)
            } else if c == '{' {
                seq!['{'] + k + render_from(tpl, i + 1, Some(Seq::empty()), t, p)
            } else {
                render_from(tpl, i + 1, Some(k.push(c)), t, p)
            },
        }
    }
}

/// The template with every placeholder replaced.
pub open spec fn render(tpl: Seq<char>, t: TrackView, p: PlayerSettings) -> Seq<char> {
    render_from(tpl, 0, None, t, p)
}

/// The placeholder keys of template characters `i` onwards, in order.
pub open spec fn keys_from(tpl: Seq<char>, i: int, key: Option<Seq<char>>) -> Seq<Seq<char>>
    decreases tpl.len() - i,
{
    if i < 0 || i >= tpl.len() {
        Seq::empty()
    } else {
        let c = tpl[i];
        match key {
            None => if c == '{' {
                keys_from(tpl, i + 1, Some(Seq::empty()))
            } else {
                keys_from(tpl, i + 1, None)
            },
            Some(k) => if c == '}' {
                seq![k] + keys_from(tpl, i + 1, None)
            } else if c == '{' {
                keys_from(tpl, i + 1, Some(Seq::empty()))
            } else {
                keys_from(tpl, i + 1, Some(k.push(c)))
            },
        }
    }
}

/// The keys of the placeholders of a template, in order.
pub open spec fn template_keys(tpl: Seq<char>) -> Seq<Seq<char>> {
    keys_from(tpl, 0, None)
}

/// Whether a key names content that changes while a track plays.
pub open spec fn is_volatile_key(k: Seq<char>) -> bool {
    k == "lyrics"@ || k == "progress"@ || k == "progress_bar"@
}

/// Whether a template holds a placeholder whose content changes while a
/// track plays; such a notification is kept on screen and updated.
pub open spec fn volatile(tpl: Seq<char>) -> bool {
    exists|i: int| 0 <= i < template_keys(tpl).len() && is_volatile_key(#[trigger] template_keys(tpl)[i])
}

/// The keys of the placeholders of a template, in order.
pub fn get_keys(template: &str) -> (r: Vec<String>)
    ensures
        views(r@) == template_keys(template@),
{
    let cs = chars_of(template);
    let mut keys: Vec<String> = Vec::new();
    let mut open = false;
    let mut key_start: usize = 0;
    let mut i: usize = 0;
    while i < cs.len()
        invariant
            cs@ == template@,
            i <= cs@.len(),
            key_start <= i,
            views(keys@) + keys_from(
                cs@,
                i as int,
                if open {
                    Some(cs@.subrange(key_start as int, i as int))
                } else {
                    None
                },
            ) == template_keys(template@),
        decreases cs@.len() - i,
    {
        let c = cs[i];
        let ghost k = cs@.subrange(key_start as int, i as int);
        if !open {
            if c == '{' {
                open = true;
                key_start = i + 1;
                assert(cs@.subrange(key_start as int, key_start as int) =~= Seq::<char>::empty());
            }
        } else if c == '}' {
            let ghost before = keys@;
            keys.push(string_of(&cs, key_start, i));
            assert(views(keys@) =~= views(before).push(k));
            assert(views(keys@) + keys_from(cs@, i + 1, None) =~= views(before) + (seq![k]
                + keys_from(cs@, i + 1, None)));
            open = false;
        } else if c == '{' {
            key_start = i + 1;
            assert(cs@.subrange(key_start as int, key_start as int) =~= Seq::<char>::empty());
        } else {
            assert(k.push(c) =~= cs@.subrange(key_start as int, i + 1));
        }
        i = i + 1;
    }
    assert(views(keys@) =~= template_keys(template@));
    keys
}

/// Whether a template holds a `lyrics`, `progress` or `progress_bar`
/// placeholder; whether those are filled in plays no part.
pub fn is_mutable(template: &str) -> (r: bool)
    ensures
        r == volatile(template@),
{
    let keys = get_keys(template);
    let mut i: usize = 0;
    while i < keys.len()
        invariant
            views(keys@) == template_keys(template@),
            i <= keys@.len(),
            forall|j: int| 0 <= j < i ==> !is_volatile_key(#[trigger] template_keys(template@)[j]),
        decreases keys@.len() - i,
    {
        let k = keys[i].as_str();
        assert(views(keys@)[i as int] == keys@[i as int]@);
        if str_eq(k, "lyrics") || str_eq(k, "progress") || str_eq(k, "progress_bar") {
            return true;
        }
        i = i + 1;
    }
    false
}

/// Appends the value of placeholder `key`.
fn push_value(out: &mut String, key: &str, track: &Track, player: &PlayerSettings)
    ensures
        final(out)@ == old(out)@ + placeholder_value(key@, track@, *player),
{
    if str_eq(key, "status") {
        out.append(track.status.name());
    } else if str_eq(key, "title") {
        out.append(track.get_name());
    } else {
        match track.metadata.get(key) {
            Some(v) => {
                out.append(v);
            },
            None => {
                if str_eq(key, "repeat") {
                    out.append(if player.repeat { "true" } else { "false" });
                } else if str_eq(key, "repeat_current") {
                    out.append(if player.repeat_current { "true" } else { "false" });
                } else if str_eq(key, "shuffle") {
                    out.append(player.shuffle.name());
                } else if str_eq(key, "aaa_mode") {
                    out.append(player.aaa_mode.name());
                } else if str_eq(key, "volume_left") {
                    push_decimal(out, player.volume.left as u32);
                } else if str_eq(key, "volume_right") {
                    push_decimal(out, player.volume.right as u32);
                } else if str_eq(key, "volume") {
                    push_decimal(out, player.volume.left as u32);
                    if player.volume.left != player.volume.right {
                        out.append(":");
                        push_decimal(out, player.volume.right as u32);
                    }
                } else {
                }
            },
        }
    }
    assert(final(out)@ =~= old(out)@ + placeholder_value(key@, track@, *player));
}

/// Fills the placeholders of a template from a track and the player's
/// settings, in one pass from left to right. An unknown key gives the empty
/// string.
pub fn process_template_placeholders(
    template: &str,
    track: &Track,
    player_settings: &PlayerSettings,
) -> (r: String)
    ensures
        r@ == render(template@, track@, *player_settings),
{
    let cs = chars_of(template);
    let mut out = String::new();
    let mut open = false;
    let mut key_start: usize = 0;
    let mut i: usize = 0;
    let ghost t = track@;
    let ghost p = *player_settings;
    while i < cs.len()
        invariant
            cs@ == template@,
            t == track@,
            p == *player_settings,
            i <= cs@.len(),
            key_start <= i,
            out@ + render_from(
                cs@,
                i as int,
                if open {
                    Some(cs@.subrange(key_start as int, i as int))
                } else {
                    None
                },
                t,
                p,
            ) == render(template@, t, p),
        decreases cs@.len() - i,
    {
        let c = cs[i];
        let ghost k = cs@.subrange(key_start as int, i as int);
        let ghost before = out@;
        if !open {
            if c == '{' {
                open = true;
                key_start = i + 1;
                assert(cs@.subrange(key_start as int, key_start as int) =~= Seq::<char>::empty());
            } else {
                push_char(&mut out, c);
                assert(out@ + render_from(cs@, i + 1, None, t, p) =~= before + (seq![c]
                    + render_from(cs@, i + 1, None, t, p)));
            }
        } else if c == '}' {
            let key = string_of(&cs, key_start, i);
            push_value(&mut out, key.as_str(), track, player_settings);
            assert(out@ + render_from(cs@, i + 1, None, t, p) =~= before + (placeholder_value(
                k,
                t,
                p,
            ) + render_from(cs@, i + 1, None, t, p)));
            open = false;
        } else if c == '{' {
            push_char(&mut out, '{');
            out.append(string_of(&cs, key_start, i).as_str());
            key_start = i + 1;
            assert(cs@.subrange(key_start as int, key_start as int) =~= Seq::<char>::empty());
            assert(out@ + render_from(cs@, i + 1, Some(Seq::empty()), t, p) =~= before + (seq![
                '{',
            ] + k + render_from(cs@, i + 1, Some(Seq::empty()), t, p)));
        } else {
            assert(k.push(c) =~= cs@.subrange(key_start as int, i + 1));
        }
        i = i + 1;
    }
    if open {
        let ghost k = cs@.subrange(key_start as int, i as int);
        let ghost before = out@;
        push_char(&mut out, '{');
        out.append(string_of(&cs, key_start, i).as_str());
        assert(out@ =~= before + (seq!['{'] + k));
    }
    assert(out@ =~= render(template@, t, p));
    out
}

/// Whether a key is one of the keys that name a field of the track or a
/// player setting.
pub open spec fn is_known_key(k: Seq<char>) -> bool {
    k == "status"@ || k == "title"@ || k == "repeat"@ || k == "repeat_current"@ || k
        == "shuffle"@ || k == "aaa_mode"@ || k == "volume_left"@ || k == "volume_right"@ || k
        == "volume"@
}

proof fn lemma_keys_outside(tpl: Seq<char>, i: int, n: int)
    requires
        0 <= i <= n <= tpl.len(),
        forall|x: int| i <= x < n ==> tpl[x] != '{',
    ensures
        keys_from(tpl, i, None) == keys_from(tpl, n, None),
    decreases n - i,
{
    if i < n {
        lemma_keys_outside(tpl, i + 1, n);
    }
}

proof fn lemma_keys_inside(tpl: Seq<char>, start: int, k: Seq<char>, j: int)
    requires
        0 <= start,
        start + k.len() <= tpl.len(),
        0 <= j <= k.len(),
        forall|x: int| 0 <= x < k.len() ==> tpl[start + x] == k[x],
        forall|x: int| 0 <= x < k.len() ==> k[x] != '{' && k[x] != '}',
    ensures
        keys_from(tpl, start + j, Some(k.take(j))) == keys_from(
            tpl,
            start + k.len(),
            Some(k),
        ),
    decreases k.len() - j,
{
    if j < k.len() {
        assert(k.take(j).push(k[j]) =~= k.take(j + 1));
        lemma_keys_inside(tpl, start, k, j + 1);
    } else {
        assert(k.take(j) =~= k);
    }
}

/// A template that holds a `lyrics`, `progress` or `progress_bar`
/// placeholder, after text without an opening brace, is volatile, whatever
/// follows it.
pub proof fn lemma_volatile_placeholder(a: Seq<char>, k: Seq<char>, b: Seq<char>)
    requires
        forall|x: int| 0 <= x < a.len() ==> a[x] != '{',
        forall|x: int| 0 <= x < k.len() ==> k[x] != '{' && k[x] != '}',
        is_volatile_key(k),
    ensures
        volatile(a + seq!['{'] + k + seq!['}'] + b),
{
    let tpl = a + seq!['{'] + k + seq!['}'] + b;
    let n = a.len() as int;
    assert forall|x: int| 0 <= x < n implies tpl[x] != '{' by {
        assert(tpl[x] == a[x]);
    }
    lemma_keys_outside(tpl, 0, n);
    assert(tpl[n] == '{');
    assert forall|x: int| 0 <= x < k.len() implies tpl[n + 1 + x] == k[x] by {}
    assert(k.take(0) =~= Seq::<char>::empty());
    lemma_keys_inside(tpl, n + 1, k, 0);
    assert(tpl[n + 1 + k.len()] == '}');
    assert(template_keys(tpl)[0] == k);
}

proof fn lemma_render_outside(tpl: Seq<char>, i: int, n: int, t: TrackView, p: PlayerSettings)
    requires
        0 <= i <= n <= tpl.len(),
        forall|x: int| i <= x < n ==> tpl[x] != '{',
    ensures
        render_from(tpl, i, None, t, p) == tpl.subrange(i, n) + render_from(tpl, n, None, t, p),
    decreases n - i,
{
    if i < n {
        lemma_render_outside(tpl, i + 1, n, t, p);
        assert(seq![tpl[i]] + tpl.subrange(i + 1, n) =~= tpl.subrange(i, n));
    } else {
        assert(tpl.subrange(i, n) =~= Seq::<char>::empty());
    }
}

/// An unknown placeholder amid text without opening braces renders as that
/// text alone: the placeholder gives nothing and its braces do not stay.
pub proof fn lemma_unknown_key_in_text(
    a: Seq<char>,
    k: Seq<char>,
    b: Seq<char>,
    t: TrackView,
    p: PlayerSettings,
)
    requires
        forall|x: int| 0 <= x < a.len() ==> a[x] != '{',
        forall|x: int| 0 <= x < b.len() ==> b[x] != '{',
        forall|x: int| 0 <= x < k.len() ==> k[x] != '{' && k[x] != '}',
        !is_known_key(k),
        !t.tags.contains_key(k),
    ensures
        render(a + seq!['{'] + k + seq!['}'] + b, t, p) == a + b,
{
    let tpl = a + seq!['{'] + k + seq!['}'] + b;
    let n = a.len() as int;
    let m = n + 2 + k.len();
    assert forall|x: int| 0 <= x < n implies tpl[x] != '{' by {
        assert(tpl[x] == a[x]);
    }
    lemma_render_outside(tpl, 0, n, t, p);
    assert(tpl.subrange(0, n) =~= a);
    assert(tpl[n] == '{');
    assert forall|x: int| 0 <= x < k.len() implies tpl[n + 1 + x] == k[x] by {}
    assert(k.take(0) =~= Seq::<char>::empty());
    lemma_render_inside(tpl, n + 1, k, 0, t, p);
    assert(tpl[n + 1 + k.len()] == '}');
    assert(placeholder_value(k, t, p) == Seq::<char>::empty());
    assert forall|x: int| m <= x < tpl.len() implies tpl[x] != '{' by {
        assert(tpl[x] == b[x - m]);
    }
    lemma_render_outside(tpl, m, tpl.len() as int, t, p);
    assert(tpl.subrange(m, tpl.len() as int) =~= b);
    assert(render_from(tpl, tpl.len() as int, None, t, p) == Seq::<char>::empty());
    assert(render(tpl, t, p) =~= a + b);
}

proof fn lemma_render_inside(
    tpl: Seq<char>,
    start: int,
    k: Seq<char>,
    j: int,
    t: TrackView,
    p: PlayerSettings,
)
    requires
        0 <= start,
        start + k.len() <= tpl.len(),
        0 <= j <= k.len(),
        forall|x: int| 0 <= x < k.len() ==> tpl[start + x] == k[x],
        forall|x: int| 0 <= x < k.len() ==> k[x] != '{' && k[x] != '}',
    ensures
        render_from(tpl, start + j, Some(k.take(j)), t, p) == render_from(
            tpl,
            start + k.len(),
            Some(k),
            t,
            p,
        ),
    decreases k.len() - j,
{
    if j < k.len() {
        assert(k.take(j).push(k[j]) =~= k.take(j + 1));
        lemma_render_inside(tpl, start, k, j + 1, t, p);
    } else {
        assert(k.take(j) =~= k);
    }
}

} // verus!
