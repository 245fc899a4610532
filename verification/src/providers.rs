//! The working directory as the prompt shows it: relative to the home
//! directory where it lies under it, with the inner components cut down to
//! their first character.

use crate::text::{chars_of, text_of};
use vstd::prelude::*;

verus! {

/// How a path is displayed.
pub struct PromptPath {
    /// The text that stands for the home directory; `None` switches the
    /// substitution off.
    pub home_string: Option<String>,
    /// The text between two components.
    pub separator: String,
    /// Whether every component but the first and the last is cut down to its
    /// first character.
    pub shorten: bool,
}

/// The mathematical content of a [`PromptPath`].
pub struct PromptPathView {
    pub home_string: Option<Seq<char>>,
    pub separator: Seq<char>,
    pub shorten: bool,
}

impl View for PromptPath {
    type V = PromptPathView;

    open spec fn view(&self) -> PromptPathView {
        PromptPathView {
            home_string: match self.home_string {
                Some(marker) => Some(marker@),
                None => None,
            },
            separator: self.separator@,
            shorten: self.shorten,
        }
    }
}

/// The contents of a list of texts.
pub open spec fn views(parts: Seq<String>) -> Seq<Seq<char>> {
    Seq::new(parts.len(), |i: int| parts[i]@)
}

/// The segments of a path between its slashes, empty ones included. A path
/// with `n` slashes has `n + 1` segments.
pub open spec fn split(path: Seq<char>) -> Seq<Seq<char>>
    decreases path.len(),
{
    if path.len() == 0 {
        seq![Seq::<char>::empty()]
    } else {
        let before = split(path.drop_last());
        if path.last() == '/' {
            before.push(Seq::<char>::empty())
        } else {
            before.update(before.len() - 1, before.last().push(path.last()))
        }
    }
}

/// Whether segment `i` names a component: empty segments name none, and
/// neither does a `.` unless it leads the path.
pub open spec fn is_named(segments: Seq<Seq<char>>, i: int) -> bool {
    segments[i].len() > 0 && (i == 0 || segments[i] != seq!['.'])
}

/// The segments that name a component, in order.
pub open spec fn named(segments: Seq<Seq<char>>) -> Seq<Seq<char>>
    decreases segments.len(),
{
    if segments.len() == 0 {
        Seq::empty()
    } else if is_named(segments, segments.len() - 1) {
        named(segments.drop_last()).push(segments.last())
    } else {
        named(segments.drop_last())
    }
}

/// The components of a path. An absolute path has the root `/` as its first
/// component; the named segments follow.
pub open spec fn components(path: Seq<char>) -> Seq<Seq<char>> {
    if path.len() > 0 && path[0] == '/' {
        seq![seq!['/']] + named(split(path))
    } else {
        named(split(path))
    }
}

/// The components of the home directory, where it is known.
pub open spec fn home_components(home: Option<Seq<char>>) -> Option<Seq<Seq<char>>> {
    match home {
        Some(path) => Some(components(path)),
        None => None,
    }
}

/// A component cut down to its first character.
pub open spec fn initial(part: Seq<char>) -> Seq<char> {
    if part.len() > 0 {
        part.take(1)
    } else {
        part
    }
}

/// The list with every element but the last cut down to its first character.
pub open spec fn shortened(parts: Seq<Seq<char>>) -> Seq<Seq<char>> {
    Seq::new(
        parts.len(),
        |i: int|
            if i + 1 < parts.len() {
                initial(parts[i])
            } else {
                parts[i]
            },
    )
}

/// The parts in order with the separator between each two of them.
pub open spec fn joined(parts: Seq<Seq<char>>, separator: Seq<char>) -> Seq<char>
    decreases parts.len(),
{
    if parts.len() == 0 {
        Seq::empty()
    } else if parts.len() == 1 {
        parts[0]
    } else {
        joined(parts.drop_last(), separator) + separator + parts.last()
    }
}

/// Every path has at least one segment, and no segment holds a slash.
pub proof fn lemma_split_segments(path: Seq<char>)
    ensures
        split(path).len() > 0,
        forall|i: int, k: int|
            0 <= i < split(path).len() && 0 <= k < split(path)[i].len() ==> split(path)[i][k]
                != '/',
    decreases path.len(),
{
    if path.len() > 0 {
        lemma_split_segments(path.drop_last());
    }
}

/// The segments of a path, joined by slashes, are the path again.
pub proof fn lemma_split_joins_back(path: Seq<char>)
    ensures
        joined(split(path), seq!['/']) == path,
    decreases path.len(),
{
    let slash = seq!['/'];
    if path.len() == 0 {
        assert(joined(split(path), slash) =~= path);
    } else {
        let front = path.drop_last();
        let before = split(front);
        lemma_split_segments(front);
        lemma_split_joins_back(front);
        if path.last() == '/' {
            let after = before.push(Seq::<char>::empty());
            assert(after.drop_last() =~= before);
            assert(joined(after, slash) =~= front + slash);
            assert(front + slash =~= path);
        } else {
            let after = before.update(before.len() - 1, before.last().push(path.last()));
            assert(after.drop_last() =~= before.drop_last());
            assert(joined(after, slash) =~= joined(before, slash).push(path.last()));
            assert(front.push(path.last()) =~= path);
        }
    }
}

/// A joined text begins with its first part and ends with its last.
pub proof fn lemma_joined_ends(parts: Seq<Seq<char>>, separator: Seq<char>)
    requires
        parts.len() > 0,
    ensures
        parts[0].is_prefix_of(joined(parts, separator)),
        parts.last().is_suffix_of(joined(parts, separator)),
    decreases parts.len(),
{
    if parts.len() > 1 {
        lemma_joined_ends(parts.drop_last(), separator);
        let text = joined(parts, separator);
        let front = joined(parts.drop_last(), separator);
        assert(text =~= front + separator + parts.last());
        assert(parts[0] =~= parts.drop_last()[0]);
        assert(parts[0] =~= text.subrange(0, parts[0].len() as int));
        assert(parts.last() =~= text.subrange(text.len() - parts.last().len(), text.len() as int));
    } else {
        assert(parts[0] =~= joined(parts, separator).subrange(0, parts[0].len() as int));
    }
}

/// A list of at most one part has nothing to cut.
pub proof fn lemma_shortened_single(parts: Seq<Seq<char>>)
    requires
        parts.len() <= 1,
    ensures
        shortened(parts) == parts,
{
    assert(shortened(parts) =~= parts);
}

/// Shortening what is shortened changes nothing more.
pub proof fn lemma_shortened_idempotent(parts: Seq<Seq<char>>)
    ensures
        shortened(shortened(parts)) == shortened(parts),
{
    assert forall|i: int| 0 <= i < parts.len() implies #[trigger] shortened(shortened(parts))[i]
        == shortened(parts)[i] by {
        assert(initial(initial(parts[i])) =~= initial(parts[i]));
    }
    assert(shortened(shortened(parts)) =~= shortened(parts));
}

/// Shortening never touches the last part and leaves the number of parts
/// as it is.
pub proof fn lemma_shortened_keeps_last(parts: Seq<Seq<char>>)
    ensures
        shortened(parts).len() == parts.len(),
        parts.len() > 0 ==> shortened(parts).last() == parts.last(),
{
}

/// Whether the first list of texts begins the second.
fn is_prefix(prefix: &Vec<String>, whole: &Vec<String>) -> (yes: bool)
    ensures
        yes == views(prefix@).is_prefix_of(views(whole@)),
{
    if prefix.len() > whole.len() {
        return false;
    }
    let mut i: usize = 0;
    while i < prefix.len()
        invariant
            i <= prefix.len() <= whole.len(),
            forall|j: int| 0 <= j < i ==> prefix@[j]@ == whole@[j]@,
        decreases prefix.len() - i,
    {
        if !(prefix[i] == whole[i]) {
            assert(views(prefix@)[i as int] != views(whole@).subrange(
                0,
                prefix.len() as int,
            )[i as int]);
            return false;
        }
        i = i + 1;
    }
    assert(views(prefix@) =~= views(whole@).subrange(0, prefix.len() as int));
    true
}

/// Appends the segment `start..end` of the path to `parts` if it names a
/// component.
fn push_named(
    parts: &mut Vec<String>,
    path: &str,
    chars: &Vec<char>,
    start: usize,
    end: usize,
    leading: bool,
    Ghost(segments): Ghost<Seq<Seq<char>>>,
)
    requires
        chars@ == path@,
        start <= end <= chars.len(),
        segments.len() > 0,
        segments.last() == path@.subrange(start as int, end as int),
        leading <==> segments.len() == 1,
    ensures
        views(final(parts)@) == views(old(parts)@) + named(segments).skip(
            named(segments.drop_last()).len() as int,
        ),
        named(segments).len() >= named(segments.drop_last()).len(),
{
    let dot = end - start == 1 && chars[start] == '.';
    proof {
        let last = segments.last();
        assert(last.len() == end - start);
        if last.len() == 1 {
            assert(last[0] == chars@[start as int]);
        }
        assert(last =~= seq!['.'] <==> dot);
    }
    if end > start && (leading || !dot) {
        let part = String::from_str(path.substring_char(start, end));
        parts.push(part);
        proof {
            assert(is_named(segments, segments.len() - 1));
            assert(named(segments).skip(named(segments.drop_last()).len() as int) =~= seq![
                segments.last(),
            ]);
            assert(views(final(parts)@) =~= views(old(parts)@) + seq![segments.last()]);
        }
    } else {
        proof {
            assert(!is_named(segments, segments.len() - 1));
            assert(named(segments).skip(named(segments.drop_last()).len() as int)
                =~= Seq::<Seq<char>>::empty());
            assert(views(final(parts)@) =~= views(old(parts)@) + Seq::<Seq<char>>::empty());
        }
    }
}

/// Splits a path into its components.
pub fn split_components(path: &str) -> (parts: Vec<String>)
    ensures
        views(parts@) == components(path@),
{
    let chars = chars_of(path);
    let mut parts: Vec<String> = Vec::new();
    if chars.len() > 0 && chars[0] == '/' {
        proof {
            reveal_strlit("/");
            assert("/"@ =~= seq!['/']);
        }
        parts.push(String::from_str("/"));
        assert(views(parts@) =~= seq![seq!['/']]);
    } else {
        assert(views(parts@) =~= Seq::<Seq<char>>::empty());
    }
    let ghost root = views(parts@);
    let mut start: usize = 0;
    let mut leading = true;
    let mut i: usize = 0;
    assert(path@.take(0) =~= Seq::<char>::empty());
    assert(path@.subrange(0, 0) =~= Seq::<char>::empty());
    assert(named(split(path@.take(0)).drop_last()) =~= Seq::<Seq<char>>::empty());
    while i < chars.len()
        invariant
            chars@ == path@,
            start <= i <= chars.len(),
            split(path@.take(i as int)).len() > 0,
            split(path@.take(i as int)).last() == path@.subrange(start as int, i as int),
            leading <==> split(path@.take(i as int)).len() == 1,
            views(parts@) == root + named(split(path@.take(i as int)).drop_last()),
        decreases chars.len() - i,
    {
        let ghost before = split(path@.take(i as int));
        let ghost after = split(path@.take(i + 1));
        proof {
            assert(path@.take(i + 1).drop_last() =~= path@.take(i as int));
            assert(path@.take(i + 1).last() == path@[i as int]);
        }
        if chars[i] == '/' {
            push_named(&mut parts, path, &chars, start, i, leading, Ghost(before));
            proof {
                assert(after =~= before.push(Seq::<char>::empty()));
                assert(after.drop_last() =~= before);
                assert(named(before) =~= named(before.drop_last()) + named(before).skip(
                    named(before.drop_last()).len() as int,
                ));
                assert(path@.subrange(i + 1, i + 1) =~= Seq::<char>::empty());
            }
            leading = false;
            start = i + 1;
        } else {
            proof {
                assert(after =~= before.update(
                    before.len() - 1,
                    before.last().push(path@[i as int]),
                ));
                assert(after.drop_last() =~= before.drop_last());
                assert(path@.subrange(start as int, i + 1) =~= path@.subrange(
                    start as int,
                    i as int,
                ).push(path@[i as int]));
            }
        }
        i = i + 1;
    }
    let ghost segments = split(path@);
    proof {
        assert(path@.take(i as int) =~= path@);
    }
    push_named(&mut parts, path, &chars, start, i, leading, Ghost(segments));
    proof {
        assert(named(segments) =~= named(segments.drop_last()) + named(segments).skip(
            named(segments.drop_last()).len() as int,
        ));
        assert(views(parts@) =~= components(path@));
    }
    parts
}

/// Joins the parts with the separator between each two of them.
pub fn join(parts: &Vec<String>, separator: &str) -> (text: String)
    ensures
        text@ == joined(views(parts@), separator@),
{
    let mut text = String::new();
    let mut i: usize = 0;
    assert(views(parts@).take(0) =~= Seq::<Seq<char>>::empty());
    while i < parts.len()
        invariant
            i <= parts.len(),
            text@ == joined(views(parts@).take(i as int), separator@),
        decreases parts.len() - i,
    {
        let ghost front = text@;
        if i > 0 {
            text.append(separator);
        }
        text.append(parts[i].as_str());
        proof {
            let shown = views(parts@).take(i + 1);
            assert(shown.drop_last() =~= views(parts@).take(i as int));
            assert(shown.last() == parts@[i as int]@);
            if i == 0 {
                assert(text@ =~= shown[0]);
            } else {
                assert(text@ =~= front + separator@ + shown.last());
            }
        }
        i = i + 1;
    }
    assert(views(parts@).take(i as int) =~= views(parts@));
    text
}

impl PromptPathView {
    /// Whether the home marker takes the place of the home directory: a
    /// marker is configured, a home directory is known, and the working
    /// directory lies under it, component by component.
    pub open spec fn under_home(self, cwd: Seq<Seq<char>>, home: Option<Seq<Seq<char>>>) -> bool {
        match (self.home_string, home) {
            (Some(_), Some(home_parts)) => home_parts.is_prefix_of(cwd),
            _ => false,
        }
    }

    /// The parts after shortening, if shortening is switched on.
    pub open spec fn cut(self, parts: Seq<Seq<char>>) -> Seq<Seq<char>> {
        if self.shorten {
            shortened(parts)
        } else {
            parts
        }
    }

    /// The components as they are displayed. Under the home directory the
    /// marker comes first and the components below home follow. Elsewhere
    /// the path's own components are shown, the root as an empty text so
    /// that the joined path begins with the separator; a list of one
    /// component is left as it is.
    pub open spec fn display_parts(
        self,
        cwd: Seq<Seq<char>>,
        home: Option<Seq<Seq<char>>>,
    ) -> Seq<Seq<char>> {
        if self.under_home(cwd, home) {
            seq![self.home_string.unwrap()] + self.cut(
                cwd.skip(home.unwrap().len() as int),
            )
        } else {
            let parts = self.cut(cwd);
            if parts.len() > 1 {
                parts.update(0, Seq::<char>::empty())
            } else {
                parts
            }
        }
    }

    /// The displayed text: `!` where the working directory is unknown, else
    /// the displayed components joined by the separator.
    pub open spec fn display(self, cwd: Option<Seq<char>>, home: Option<Seq<char>>) -> Seq<char> {
        match cwd {
            None => "!"@,
            Some(path) => joined(
                self.display_parts(components(path), home_components(home)),
                self.separator,
            ),
        }
    }
}

impl PromptPath {
    /// Cuts every part but the last down to its first character. A list of
    /// at most one part is left as it is.
    pub fn shorten_parts(parts: &mut Vec<String>)
        ensures
            views(final(parts)@) == shortened(views(old(parts)@)),
            old(parts)@.len() <= 1 ==> views(final(parts)@) == views(old(parts)@),
    {
        let ghost before = views(parts@);
        if parts.len() == 0 {
            assert(views(parts@) =~= shortened(before));
            return ;
        }
        let l: usize = parts.len() - 1;
        let mut i: usize = 0;
        while i < l
            invariant
                i <= l,
                l + 1 == parts.len(),
                parts.len() == before.len(),
                forall|j: int| 0 <= j < i ==> parts@[j]@ == initial(before[j]),
                forall|j: int| i <= j < parts.len() ==> parts@[j]@ == before[j],
            decreases l - i,
        {
            if !parts[i].as_str().is_empty() {
                let first = String::from_str(parts[i].as_str().substring_char(0, 1));
                parts.set(i, first);
            }
            i = i + 1;
        }
        assert(views(parts@) =~= shortened(before));
        assert(before.len() <= 1 ==> shortened(before) =~= before);
    }

    /// Renders the working directory. `cwd` is its canonical absolute path,
    /// `None` where it could not be resolved; `home` is the home directory,
    /// `None` where it is unknown.
    pub fn to_string(&self, cwd: Option<&str>, home: Option<&str>) -> (result: String)
        ensures
            result@ == self@.display(text_of(cwd), text_of(home)),
    {
        let path = match cwd {
            Some(path) => path,
            None => {
                return String::from_str("!");
            },
        };
        let mut parts = split_components(path);
        if let Some(marker) = &self.home_string {
            if let Some(home_path) = home {
                let home_parts = split_components(home_path);
                if is_prefix(&home_parts, &parts) {
                    let ghost all = views(parts@);
                    let mut below = parts.split_off(home_parts.len());
                    assert(views(below@) =~= all.skip(home_parts.len() as int));
                    if self.shorten {
                        Self::shorten_parts(&mut below);
                    }
                    let ghost tail = views(below@);
                    below.insert(0, marker.clone());
                    assert(views(below@) =~= seq![marker@] + tail);
                    return join(&below, self.separator.as_str());
                }
            }
        }
        if self.shorten {
            Self::shorten_parts(&mut parts);
        }
        if parts.len() > 1 {
            let ghost shown = views(parts@);
            parts.push(String::new());
            parts.swap_remove(0);
            assert(views(parts@) =~= shown.update(0, Seq::<char>::empty()));
        }
        join(&parts, self.separator.as_str())
    }
}

/// The last component of the working directory is displayed whole: it is
/// the last displayed component and the end of the displayed text. This
/// holds wherever the working directory has a component to show, that is,
/// unless it is the home directory itself.
pub proof fn lemma_last_component_kept(
    config: PromptPathView,
    cwd: Seq<char>,
    home: Option<Seq<char>>,
)
    requires
        components(cwd).len() > 0,
        config.under_home(components(cwd), home_components(home)) ==> components(
            home.unwrap(),
        ).len() < components(cwd).len(),
    ensures
        config.display_parts(components(cwd), home_components(home)).len() > 0,
        config.display_parts(components(cwd), home_components(home)).last() == components(
            cwd,
        ).last(),
        components(cwd).last().is_suffix_of(config.display(Some(cwd), home)),
{
    let parts = components(cwd);
    let shown = config.display_parts(parts, home_components(home));
    if config.under_home(parts, home_components(home)) {
        let below = parts.skip(components(home.unwrap()).len() as int);
        lemma_shortened_keeps_last(below);
        assert(below.last() == parts.last());
        assert(shown.last() == config.cut(below).last());
    } else {
        lemma_shortened_keeps_last(parts);
    }
    lemma_joined_ends(shown, config.separator);
}

/// The first displayed component is the home marker under the home
/// directory and the empty text elsewhere, and the displayed text begins
/// with it. Outside the home directory this holds of every path of two
/// components or more.
pub proof fn lemma_first_component(
    config: PromptPathView,
    cwd: Seq<char>,
    home: Option<Seq<char>>,
)
    requires
        config.under_home(components(cwd), home_components(home)) || components(cwd).len() > 1,
    ensures
        config.display_parts(components(cwd), home_components(home)).len() > 0,
        config.display_parts(components(cwd), home_components(home))[0] == if config.under_home(
            components(cwd),
            home_components(home),
        ) {
            config.home_string.unwrap()
        } else {
            Seq::<char>::empty()
        },
        config.display_parts(components(cwd), home_components(home))[0].is_prefix_of(
            config.display(Some(cwd), home),
        ),
{
    let parts = components(cwd);
    let shown = config.display_parts(parts, home_components(home));
    if !config.under_home(parts, home_components(home)) {
        lemma_shortened_keeps_last(parts);
    }
    lemma_joined_ends(shown, config.separator);
}

/// A working directory of a single component outside the home directory is
/// displayed as that component, whether shortening is on or off.
pub proof fn lemma_single_component_untouched(
    config: PromptPathView,
    cwd: Seq<char>,
    home: Option<Seq<char>>,
)
    requires
        components(cwd).len() == 1,
        !config.under_home(components(cwd), home_components(home)),
    ensures
        config.display_parts(components(cwd), home_components(home)) == components(cwd),
        config.display(Some(cwd), home) == components(cwd)[0],
{
    lemma_shortened_single(components(cwd));
}

} // verus!
