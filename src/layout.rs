//! The button layout of the header bar, read from the desktop's
//! window-manager preferences.
//!
//! The preference is a string such as `appmenu:minimize,maximize,close`:
//! the buttons before the colon sit at the start of the header bar, those
//! after it at the end.
use vstd::prelude::*;

use crate::pointer::ButtonKind;

verus! {

/// The pieces of `s` between occurrences of `sep`, in order; an empty string
/// is one empty piece.
pub open spec fn split_on(s: Seq<char>, sep: char) -> Seq<Seq<char>>
    decreases s.len(),
{
    if s.len() == 0 {
        seq![Seq::empty()]
    } else {
        let prev = split_on(s.drop_last(), sep);
        if s.last() == sep {
            prev.push(Seq::empty())
        } else {
            prev.update(prev.len() - 1, prev.last().push(s.last()))
        }
    }
}

/// A string always splits into at least one piece.
pub proof fn lemma_split_on_nonempty(s: Seq<char>, sep: char)
    ensures
        split_on(s, sep).len() >= 1,
    decreases s.len(),
{
    if s.len() > 0 {
        lemma_split_on_nonempty(s.drop_last(), sep);
    }
}

/// The button a preference word names.
pub open spec fn kind_of_name(name: Seq<char>) -> Option<ButtonKind> {
    if name == "close"@ {
        Some(ButtonKind::Close)
    } else if name == "maximize"@ {
        Some(ButtonKind::Maximize)
    } else if name == "minimize"@ {
        Some(ButtonKind::Minimize)
    } else {
        None
    }
}

/// The buttons named by the words, in order, skipping unknown words.
pub open spec fn known_kinds(words: Seq<Seq<char>>) -> Seq<ButtonKind>
    decreases words.len(),
{
    if words.len() == 0 {
        Seq::empty()
    } else {
        let prev = known_kinds(words.drop_last());
        match kind_of_name(words.last()) {
            Some(kind) => prev.push(kind),
            None => prev,
        }
    }
}

/// The buttons of one side of the preference: the first three
/// comma-separated words, known names only, in the reverse order, which is
/// the order in which the header bar packs them.
pub open spec fn collected_buttons(config: Seq<char>) -> Seq<ButtonKind> {
    let words = split_on(config, ',');
    let n = if words.len() < 3 {
        words.len()
    } else {
        3
    };
    known_kinds(words.subrange(0, n as int)).reverse()
}

/// The two sides of the preference in a settings reply: the last
/// space-separated word, split at its colons, of which there must be at
/// least two pieces.
pub open spec fn layout_sides(reply: Seq<char>) -> Option<(Seq<char>, Seq<char>)> {
    let word = split_on(reply, ' ').last();
    let sides = split_on(word, ':');
    if sides.len() >= 2 {
        Some((sides[0], sides[1]))
    } else {
        None
    }
}

/// Minimize, maximize and close, at the end of the header bar.
pub open spec fn default_layout() -> (bool, Seq<ButtonKind>) {
    (true, seq![ButtonKind::Minimize, ButtonKind::Maximize, ButtonKind::Close])
}

/// The layout a settings reply describes: the start side if it names a
/// button, else the end side if it does, else the default layout.
pub open spec fn button_layout(reply: Option<Seq<char>>) -> (bool, Seq<ButtonKind>) {
    match reply {
        None => default_layout(),
        Some(text) => match layout_sides(text) {
            None => default_layout(),
            Some((start, end)) => {
                if collected_buttons(start).len() > 0 {
                    (false, collected_buttons(start))
                } else if collected_buttons(end).len() > 0 {
                    (true, collected_buttons(end))
                } else {
                    default_layout()
                }
            },
        },
    }
}

/// The character ranges of the pieces of `s` between occurrences of `sep`.
pub fn split_positions(s: &str, sep: char) -> (r: Vec<(usize, usize)>)
    ensures
        r@.len() == split_on(s@, sep).len(),
        forall|k: int|
            0 <= k < r@.len() ==> {
                &&& (#[trigger] r@[k]).0 <= r@[k].1 <= s@.len()
                &&& s@.subrange(r@[k].0 as int, r@[k].1 as int) == split_on(s@, sep)[k]
            },
{
    let n = s.unicode_len();
    let mut r: Vec<(usize, usize)> = Vec::new();
    let mut start: usize = 0;
    let mut i: usize = 0;
    assert(s@.subrange(0, 0) =~= Seq::<char>::empty());
    while i < n
        invariant
            n == s@.len(),
            start <= i <= n,
            split_on(s@.subrange(0, i as int), sep).len() == r@.len() + 1,
            split_on(s@.subrange(0, i as int), sep).last() == s@.subrange(start as int, i as int),
            forall|k: int|
                0 <= k < r@.len() ==> {
                    &&& (#[trigger] r@[k]).0 <= r@[k].1 <= i
                    &&& s@.subrange(r@[k].0 as int, r@[k].1 as int) == split_on(
                        s@.subrange(0, i as int),
                        sep,
                    )[k]
                },
        decreases n - i,
    {
        let c = s.get_char(i);
        let ghost prefix = s@.subrange(0, i as int);
        let ghost next = s@.subrange(0, i + 1);
        assert(next.drop_last() =~= prefix);
        assert(next.last() == c);
        if c == sep {
            r.push((start, i));
            start = i + 1;
            assert(s@.subrange(start as int, i + 1) =~= Seq::<char>::empty());
        } else {
            assert(s@.subrange(start as int, i + 1) =~= s@.subrange(start as int, i as int).push(
                c,
            ));
        }
        i += 1;
    }
    assert(s@.subrange(0, n as int) =~= s@);
    r.push((start, n));
    r
}

/// Whether the characters `from..to` of `s` spell `word`.
fn spells(s: &str, from: usize, to: usize, word: &str) -> (r: bool)
    requires
        from <= to <= s@.len(),
    ensures
        r == (s@.subrange(from as int, to as int) == word@),
{
    let len = word.unicode_len();
    if to - from != len {
        return false;
    }
    let mut i: usize = 0;
    while i < len
        invariant
            len == word@.len(),
            to - from == len,
            from <= to <= s@.len(),
            i <= len,
            forall|j: int| 0 <= j < i ==> s@[from + j] == word@[j],
        decreases len - i,
    {
        if s.get_char(from + i) != word.get_char(i) {
            assert(s@.subrange(from as int, to as int)[i as int] != word@[i as int]);
            return false;
        }
        i += 1;
    }
    assert(s@.subrange(from as int, to as int) =~= word@);
    true
}

/// The button named by the characters `from..to` of `s`.
fn kind_named(s: &str, from: usize, to: usize) -> (r: Option<ButtonKind>)
    requires
        from <= to <= s@.len(),
    ensures
        r == kind_of_name(s@.subrange(from as int, to as int)),
{
    if spells(s, from, to, "close") {
        Some(ButtonKind::Close)
    } else if spells(s, from, to, "maximize") {
        Some(ButtonKind::Maximize)
    } else if spells(s, from, to, "minimize") {
        Some(ButtonKind::Minimize)
    } else {
        None
    }
}

/// The buttons that one side of the layout preference names, in the order
/// in which the header bar packs them.
pub fn collect_buttons(config: &str) -> (r: Vec<ButtonKind>)
    ensures
        r@ == collected_buttons(config@),
{
    let parts = split_positions(config, ',');
    let ghost words = split_on(config@, ',');
    let count: usize = if parts.len() < 3 {
        parts.len()
    } else {
        3
    };
    let mut kinds: Vec<ButtonKind> = Vec::new();
    let mut i: usize = 0;
    assert(words.subrange(0, 0) =~= Seq::<Seq<char>>::empty());
    while i < count
        invariant
            count <= parts@.len(),
            parts@.len() == words.len(),
            words == split_on(config@, ','),
            forall|k: int|
                0 <= k < parts@.len() ==> {
                    &&& (#[trigger] parts@[k]).0 <= parts@[k].1 <= config@.len()
                    &&& config@.subrange(parts@[k].0 as int, parts@[k].1 as int) == words[k]
                },
            i <= count,
            kinds@ == known_kinds(words.subrange(0, i as int)),
        decreases count - i,
    {
        let (from, to) = parts[i];
        assert(words.subrange(0, i + 1).drop_last() =~= words.subrange(0, i as int));
        assert(words.subrange(0, i + 1).last() == words[i as int]);
        match kind_named(config, from, to) {
            Some(kind) => kinds.push(kind),
            None => {},
        }
        i += 1;
    }
    let mut buttons: Vec<ButtonKind> = Vec::new();
    let mut j: usize = kinds.len();
    while j > 0
        invariant
            j <= kinds@.len(),
            buttons@.len() == kinds@.len() - j,
            forall|k: int|
                0 <= k < buttons@.len() ==> #[trigger] buttons@[k] == kinds@[kinds@.len() - 1 - k],
        decreases j,
    {
        j -= 1;
        buttons.push(kinds[j]);
    }
    assert(buttons@ =~= kinds@.reverse());
    buttons
}

/// The two sides of the button layout preference in a settings reply.
pub fn get_button_layout_config(reply: &str) -> (r: Option<(String, String)>)
    ensures
        r matches Some((start, end)) ==> layout_sides(reply@) == Some((start@, end@)),
        r is None ==> layout_sides(reply@) is None,
{
    let words = split_positions(reply, ' ');
    proof {
        lemma_split_on_nonempty(reply@, ' ');
    }
    let (from, to) = words[words.len() - 1];
    let word = reply.substring_char(from, to);
    let sides = split_positions(word, ':');
    if sides.len() < 2 {
        return None;
    }
    let start = word.substring_char(sides[0].0, sides[0].1);
    let end = word.substring_char(sides[1].0, sides[1].1);
    Some((String::from_str(start), String::from_str(end)))
}

/// The button layout from the reply of the desktop settings service, or
/// `None` where the service could not be asked. Falls back to minimize,
/// maximize and close at the end of the header bar when the reply names
/// no button.
///
/// The flag is true when the buttons sit at the end of the header bar.
pub fn get_button_layout(reply: Option<String>) -> (r: (bool, Vec<ButtonKind>))
    ensures
        (r.0, r.1@) == button_layout(
            match reply {
                Some(text) => Some(text@),
                None => None,
            },
        ),
{
    let fallback = (true, vec![ButtonKind::Minimize, ButtonKind::Maximize, ButtonKind::Close]);
    assert(fallback.1@ =~= default_layout().1);
    let text = match reply {
        None => return fallback,
        Some(text) => text,
    };
    match get_button_layout_config(text.as_str()) {
        None => fallback,
        Some((start, end)) => {
            let buttons = collect_buttons(start.as_str());
            if buttons.len() > 0 {
                return (false, buttons);
            }
            let buttons = collect_buttons(end.as_str());
            if buttons.len() > 0 {
                return (true, buttons);
            }
            fallback
        },
    }
}

/// Pieces that name no button contribute none.
proof fn lemma_no_known_kinds(words: Seq<Seq<char>>)
    requires
        forall|k: int| 0 <= k < words.len() ==> kind_of_name(#[trigger] words[k]) is None,
    ensures
        known_kinds(words).len() == 0,
    decreases words.len(),
{
    if words.len() > 0 {
        lemma_no_known_kinds(words.drop_last());
    }
}

/// The first three comma-separated words of a side.
pub open spec fn leading_words(side: Seq<char>) -> Seq<Seq<char>> {
    let words = split_on(side, ',');
    words.subrange(0, if words.len() < 3 { words.len() as int } else { 3 })
}

/// A reply that holds no layout, or whose sides name no known button among
/// the words that count, gives the default layout.
pub proof fn lemma_unknown_layout_falls_back(reply: Seq<char>)
    requires
        layout_sides(reply) matches Some((start, end)) ==> {
            &&& forall|k: int|
                0 <= k < leading_words(start).len() ==> kind_of_name(
                    #[trigger] leading_words(start)[k],
                ) is None
            &&& forall|k: int|
                0 <= k < leading_words(end).len() ==> kind_of_name(
                    #[trigger] leading_words(end)[k],
                ) is None
        },
    ensures
        button_layout(Some(reply)) == default_layout(),
{
    if let Some((start, end)) = layout_sides(reply) {
        lemma_no_known_kinds(leading_words(start));
        lemma_no_known_kinds(leading_words(end));
    }
}

} // verus!
