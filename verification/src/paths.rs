//! Virtual paths: the text of a path, read into a form in which no two
//! paths to the same place differ, and in which leaving the root shows.
//!
//! A path is a run of components separated by `/`. Empty components and `.`
//! name no place. `..` goes back to what the last name before it entered;
//! where there is no such name it climbs out of the root, and is counted.
//! What is left is a count of climbs and then a list of names.

use vstd::prelude::*;
use vstd::std_specs::iter::IteratorSpec;
use vstd::string::*;

use crate::text::texts;

verus! {

/// The character that separates the components of a path.
pub const SEPARATOR: char = '/';

/// What a virtual path stands for: how many times it climbs out of the root,
/// and the names it then enters, outermost first.
pub ghost struct PathModel {
    pub ascents: nat,
    pub names: Seq<Seq<char>>,
}

/// Whether a component names the directory it stands in.
pub open spec fn is_current(component: Seq<char>) -> bool {
    component.len() == 1 && component[0] == '.'
}

/// Whether a component names the directory above.
pub open spec fn is_parent(component: Seq<char>) -> bool {
    component.len() == 2 && component[0] == '.' && component[1] == '.'
}

/// Whether a component is a name to enter: not empty, neither `.` nor `..`,
/// and free of separators.
pub open spec fn is_name(component: Seq<char>) -> bool {
    &&& component.len() > 0
    &&& !is_current(component)
    &&& !is_parent(component)
    &&& forall|i: int| 0 <= i < component.len() ==> component[i] != SEPARATOR
}

/// Whether every component in `names` is a name to enter.
pub open spec fn all_names(names: Seq<Seq<char>>) -> bool {
    forall|i: int| 0 <= i < names.len() ==> is_name(#[trigger] names[i])
}

/// The components of `text`: what stands between its separators. There is
/// always one more component than there are separators.
pub open spec fn components(text: Seq<char>) -> Seq<Seq<char>>
    decreases text.len(),
{
    if text.len() == 0 {
        seq![Seq::empty()]
    } else {
        let before = components(text.drop_last());
        if text.last() == SEPARATOR {
            before.push(Seq::empty())
        } else {
            before.drop_last().push(before.last().push(text.last()))
        }
    }
}

/// Where one more component leads from `path`.
pub open spec fn step(path: PathModel, component: Seq<char>) -> PathModel {
    if component.len() == 0 || is_current(component) {
        path
    } else if is_parent(component) {
        if path.names.len() > 0 {
            PathModel { ascents: path.ascents, names: path.names.drop_last() }
        } else {
            PathModel { ascents: path.ascents + 1, names: path.names }
        }
    } else {
        PathModel { ascents: path.ascents, names: path.names.push(component) }
    }
}

/// Where a run of components leads from the root.
pub open spec fn walk(parts: Seq<Seq<char>>) -> PathModel
    decreases parts.len(),
{
    if parts.len() == 0 {
        PathModel { ascents: 0, names: Seq::empty() }
    } else {
        step(walk(parts.drop_last()), parts.last())
    }
}

/// What the path written as `text` stands for.
pub open spec fn normal_form(text: Seq<char>) -> PathModel {
    walk(components(text))
}

/// The text that names `names` below `root`: each name after a separator.
pub open spec fn below(root: Seq<char>, names: Seq<Seq<char>>) -> Seq<char>
    decreases names.len(),
{
    if names.len() == 0 {
        root
    } else {
        below(root, names.drop_last()) + seq![SEPARATOR] + names.last()
    }
}

/// Whether `path` names `root` itself or a place reached from it by
/// entering names only, never climbing.
pub open spec fn contained_in(root: Seq<char>, path: Seq<char>) -> bool {
    exists|names: Seq<Seq<char>>| all_names(names) && path == #[trigger] below(root, names)
}

/// No component holds a separator, and there is at least one component.
pub proof fn lemma_components(text: Seq<char>)
    ensures
        components(text).len() >= 1,
        forall|k: int, i: int|
            0 <= k < components(text).len() && 0 <= i < components(text)[k].len() ==> components(
                text,
            )[k][i] != SEPARATOR,
    decreases text.len(),
{
    if text.len() > 0 {
        lemma_components(text.drop_last());
    }
}

/// One more component leaves the names that were entered names.
pub proof fn lemma_step_keeps_names(path: PathModel, component: Seq<char>)
    requires
        all_names(path.names),
        forall|i: int| 0 <= i < component.len() ==> component[i] != SEPARATOR,
    ensures
        all_names(step(path, component).names),
{
}

/// A walk over components that hold no separator enters names only, and
/// neither climbs nor enters more often than there are components.
pub proof fn lemma_walk(parts: Seq<Seq<char>>)
    requires
        forall|k: int, i: int|
            0 <= k < parts.len() && 0 <= i < parts[k].len() ==> parts[k][i] != SEPARATOR,
    ensures
        all_names(walk(parts).names),
        walk(parts).ascents + walk(parts).names.len() <= parts.len(),
    decreases parts.len(),
{
    if parts.len() > 0 {
        let before = parts.drop_last();
        assert forall|k: int, i: int|
            0 <= k < before.len() && 0 <= i < before[k].len() implies before[k][i]
            != SEPARATOR by {
            assert(before[k] == parts[k]);
        }
        lemma_walk(before);
        lemma_step_keeps_names(walk(before), parts.last());
    }
}

/// Whatever the text, its normal form enters names only.
pub proof fn lemma_normal_form_enters_names(text: Seq<char>)
    ensures
        all_names(normal_form(text).names),
{
    lemma_components(text);
    lemma_walk(components(text));
}

/// A place below a root is spelled with at least two characters more than
/// the root for each name entered.
pub proof fn lemma_below_grows(root: Seq<char>, names: Seq<Seq<char>>)
    requires
        all_names(names),
    ensures
        below(root, names).len() >= root.len() + 2 * names.len(),
    decreases names.len(),
{
    if names.len() > 0 {
        assert(all_names(names.drop_last())) by {
            assert forall|i: int| 0 <= i < names.drop_last().len() implies is_name(
                #[trigger] names.drop_last()[i],
            ) by {
                assert(names.drop_last()[i] == names[i]);
            }
        }
        lemma_below_grows(root, names.drop_last());
        assert(is_name(names[names.len() - 1]));
    }
}

/// Below one root, different names lead to different places: no two paths
/// in normal form spell the same file.
pub proof fn lemma_below_injective(root: Seq<char>, first: Seq<Seq<char>>, second: Seq<Seq<char>>)
    requires
        all_names(first),
        all_names(second),
        below(root, first) == below(root, second),
    ensures
        first == second,
    decreases first.len(),
{
    if first.len() == 0 || second.len() == 0 {
        lemma_below_grows(root, first);
        lemma_below_grows(root, second);
        assert(first.len() == 0 && second.len() == 0);
        assert(first =~= second);
    } else {
        let whole = below(root, first);
        let a = below(root, first.drop_last());
        let x = first.last();
        let b = below(root, second.drop_last());
        let y = second.last();
        assert(is_name(first[first.len() - 1]) && is_name(second[second.len() - 1]));
        assert(whole == a + seq![SEPARATOR] + x);
        assert(whole == b + seq![SEPARATOR] + y);
        assert(whole.len() == a.len() + 1 + x.len());
        assert(whole.len() == b.len() + 1 + y.len());
        // the separator before the last name stands where the other
        // spelling would still be within its last name, were that longer
        if x.len() < y.len() {
            assert(whole[a.len() as int] == SEPARATOR);
            assert(whole[a.len() as int] == y[a.len() - b.len() - 1]);
        }
        if y.len() < x.len() {
            assert(whole[b.len() as int] == SEPARATOR);
            assert(whole[b.len() as int] == x[b.len() - a.len() - 1]);
        }
        assert(x.len() == y.len());
        assert(x =~= y) by {
            assert forall|i: int| 0 <= i < x.len() implies x[i] == y[i] by {
                assert(whole[a.len() + 1 + i] == x[i]);
                assert(whole[b.len() + 1 + i] == y[i]);
            }
        }
        assert(a =~= b) by {
            assert forall|i: int| 0 <= i < a.len() implies a[i] == b[i] by {
                assert(whole[i] == a[i]);
                assert(whole[i] == b[i]);
            }
        }
        assert(all_names(first.drop_last())) by {
            assert forall|i: int| 0 <= i < first.drop_last().len() implies is_name(
                #[trigger] first.drop_last()[i],
            ) by {
                assert(first.drop_last()[i] == first[i]);
            }
        }
        assert(all_names(second.drop_last())) by {
            assert forall|i: int| 0 <= i < second.drop_last().len() implies is_name(
                #[trigger] second.drop_last()[i],
            ) by {
                assert(second.drop_last()[i] == second[i]);
            }
        }
        lemma_below_injective(root, first.drop_last(), second.drop_last());
        assert(first =~= first.drop_last().push(x));
        assert(second =~= second.drop_last().push(y));
    }
}

/// Text that is followed by a run of characters other than the separator
/// has the same components, the last one longer by that run.
pub proof fn lemma_components_extend(text: Seq<char>, run: Seq<char>)
    requires
        forall|i: int| 0 <= i < run.len() ==> run[i] != SEPARATOR,
    ensures
        components(text + run) == components(text).drop_last().push(components(text).last() + run),
    decreases run.len(),
{
    lemma_components(text);
    let parts = components(text);
    if run.len() == 0 {
        assert(text + run =~= text);
        assert(parts.last() + run =~= parts.last());
        assert(parts.drop_last().push(parts.last()) =~= parts);
    } else {
        let shorter = run.drop_last();
        lemma_components_extend(text, shorter);
        assert((text + run).drop_last() =~= text + shorter);
        assert((text + run).last() == run.last());
        let before = components(text + shorter);
        assert(before.last() == parts.last() + shorter);
        assert(before.drop_last() =~= parts.drop_last());
        assert((parts.last() + shorter).push(run.last()) =~= parts.last() + run);
    }
}

/// Reading what was written gives back what was meant: the text that spells
/// names one after the other, each after a separator, has those names as its
/// normal form, with no climb.
pub proof fn lemma_written_names_are_read(names: Seq<Seq<char>>)
    requires
        all_names(names),
    ensures
        components(below(Seq::empty(), names)) == seq![Seq::<char>::empty()] + names,
        normal_form(below(Seq::empty(), names)) == (PathModel { ascents: 0, names }),
    decreases names.len(),
{
    let root = Seq::<char>::empty();
    let lead = seq![Seq::<char>::empty()];
    if names.len() == 0 {
        assert(lead + names =~= lead);
        assert(lead.drop_last() =~= Seq::<Seq<char>>::empty());
        assert(walk(lead) == step(walk(lead.drop_last()), lead.last()));
        assert(walk(lead).names =~= names);
    } else {
        let shorter = names.drop_last();
        let last = names.last();
        assert(is_name(names[names.len() - 1]));
        assert(all_names(shorter)) by {
            assert forall|i: int| 0 <= i < shorter.len() implies is_name(#[trigger] shorter[i]) by {
                assert(shorter[i] == names[i]);
            }
        }
        lemma_written_names_are_read(shorter);
        let written = below(root, shorter);
        let opened = written.push(SEPARATOR);
        assert(opened.drop_last() =~= written);
        assert(components(opened) == components(written).push(Seq::<char>::empty()));
        lemma_components_extend(opened, last);
        assert(written + seq![SEPARATOR] + last =~= opened + last);
        assert(components(opened).drop_last() =~= components(written));
        assert(Seq::<char>::empty() + last =~= last);
        assert(components(below(root, names)) == components(written).push(last));
        assert(components(written).push(last) =~= lead + names);
        assert((lead + names).drop_last() =~= lead + shorter);
        assert((lead + names).last() == last);
        assert(walk(lead + names) == step(walk(lead + shorter), last));
        assert(shorter.push(last) =~= names);
    }
}

/// A path normalised from text. Equal places have equal paths, and what a
/// path enters are names: every value of this type keeps to that.
#[derive(Debug)]
pub struct VirtualPath {
    ascents: usize,
    names: Vec<String>,
}

impl View for VirtualPath {
    type V = PathModel;

    closed spec fn view(&self) -> PathModel {
        PathModel { ascents: self.ascents as nat, names: texts(self.names@) }
    }
}

/// A path while it is being read, one component after the other.
struct Walk {
    ascents: usize,
    names: Vec<String>,
}

impl View for Walk {
    type V = PathModel;

    closed spec fn view(&self) -> PathModel {
        PathModel { ascents: self.ascents as nat, names: texts(self.names@) }
    }
}

impl Walk {
    /// Goes where one more component leads.
    fn enter(&mut self, component: &str)
        requires
            old(self)@.ascents < usize::MAX,
        ensures
            final(self)@ == step(old(self)@, component@),
    {
        let length = component.unicode_len();
        if length == 0 {
            return ;
        }
        let first = component.get_char(0);
        if length == 1 && first == '.' {
            return ;
        }
        if length == 2 && first == '.' && component.get_char(1) == '.' {
            if self.names.len() > 0 {
                self.names.pop();
                assert(texts(self.names@) =~= texts(old(self).names@).drop_last());
            } else {
                self.ascents = self.ascents + 1;
            }
            return ;
        }
        self.names.push(String::from_str(component));
        assert(texts(self.names@) =~= texts(old(self).names@).push(component@));
    }
}

impl VirtualPath {
    #[verifier::type_invariant]
    spec fn enters_names_only(self) -> bool {
        all_names(texts(self.names@))
    }

    /// Whether the path leaves the root it is read from.
    pub open spec fn escapes(&self) -> bool {
        self@.ascents > 0
    }

    /// Reads a path from text.
    pub fn new(text: &str) -> (path: VirtualPath)
        ensures
            path@ == normal_form(text@),
            all_names(path@.names),
    {
        let length = text.unicode_len();
        let mut path = Walk { ascents: 0, names: Vec::new() };
        let mut chars = text.chars();
        let mut start: usize = 0;
        let mut index: usize = 0;
        proof {
            assert(text@.take(0) =~= Seq::<char>::empty());
            assert(text@.subrange(0, 0) =~= Seq::<char>::empty());
            assert(components(text@.take(0)).drop_last() =~= Seq::<Seq<char>>::empty());
            assert(path@.names =~= Seq::<Seq<char>>::empty());
            assert(text@.skip(0) =~= text@);
        }
        loop
            invariant
                length == text@.len(),
                start <= index <= length,
                chars.obeys_prophetic_iter_laws(),
                chars.remaining() == text@.skip(index as int),
                components(text@.take(index as int)).len() >= 1,
                components(text@.take(index as int)).last() == text@.subrange(
                    start as int,
                    index as int,
                ),
                path@ == walk(components(text@.take(index as int)).drop_last()),
                3 * path@.ascents <= start,
            ensures
                index == length,
            decreases length - index,
        {
            let ghost seen = text@.take(index as int);
            match chars.next() {
                Some(c) => {
                    proof {
                        let longer = text@.take(index + 1);
                        assert(c == text@[index as int]);
                        assert(longer.drop_last() =~= seen);
                        assert(longer.last() == c);
                        assert(text@.skip(index as int).drop_first() =~= text@.skip(index + 1));
                        if c == SEPARATOR {
                            assert(components(longer).drop_last() =~= components(seen));
                            assert(components(seen) =~= components(seen).drop_last().push(
                                components(seen).last(),
                            ));
                            assert(text@.subrange(index + 1, index + 1) =~= Seq::<char>::empty());
                        } else {
                            assert(components(longer).drop_last() =~= components(seen).drop_last());
                            assert(text@.subrange(start as int, index as int).push(c)
                                =~= text@.subrange(start as int, index + 1));
                        }
                    }
                    if c == SEPARATOR {
                        let component = text.substring_char(start, index);
                        path.enter(component);
                        start = index + 1;
                    }
                    index = index + 1;
                },
                None => {
                    assert(text@.skip(index as int).len() == 0);
                    break ;
                },
            }
        }
        proof {
            let whole = text@.take(index as int);
            assert(whole =~= text@);
            assert(components(whole) =~= components(whole).drop_last().push(
                components(whole).last(),
            ));
        }
        let component = text.substring_char(start, index);
        path.enter(component);
        proof {
            lemma_normal_form_enters_names(text@);
        }
        VirtualPath { ascents: path.ascents, names: path.names }
    }

    /// How many times the path climbs out of the root.
    pub fn ascents(&self) -> (count: usize)
        ensures
            count == self@.ascents,
    {
        self.ascents
    }

    /// The names the path enters, outermost first.
    pub fn names(&self) -> (names: &Vec<String>)
        ensures
            texts(names@) == self@.names,
            all_names(self@.names),
    {
        proof {
            use_type_invariant(self);
        }
        &self.names
    }

    /// Tests whether two paths name the same place.
    pub fn same_as(&self, other: &VirtualPath) -> (same: bool)
        ensures
            same == (self@ == other@),
    {
        if self.ascents != other.ascents || self.names.len() != other.names.len() {
            assert(self@.names.len() != other@.names.len() || self@.ascents != other@.ascents);
            return false;
        }
        let mut i: usize = 0;
        while i < self.names.len()
            invariant
                i <= self.names.len(),
                self.names.len() == other.names.len(),
                forall|k: int| 0 <= k < i ==> (#[trigger] self.names[k])@ == other.names[k]@,
            decreases self.names.len() - i,
        {
            if self.names[i] != other.names[i] {
                assert(self@.names[i as int] != other@.names[i as int]);
                return false;
            }
            i = i + 1;
        }
        assert(self@.names =~= other@.names);
        true
    }

    /// A copy of the path.
    pub fn duplicate(&self) -> (copy: VirtualPath)
        ensures
            copy@ == self@,
    {
        let mut names: Vec<String> = Vec::new();
        let mut i: usize = 0;
        while i < self.names.len()
            invariant
                i <= self.names.len(),
                names.len() == i,
                forall|k: int| 0 <= k < i ==> (#[trigger] names[k])@ == self.names[k]@,
            decreases self.names.len() - i,
        {
            names.push(self.names[i].clone());
            i = i + 1;
        }
        proof {
            use_type_invariant(self);
            assert(texts(names@) =~= texts(self.names@));
        }
        VirtualPath { ascents: self.ascents, names }
    }

    /// The text that names this path below `root`: `root`, then each name
    /// after a separator. A path that escapes has no place below a root, and
    /// gets none. What is written lies within `root`.
    pub fn under(&self, root: &str) -> (place: Option<String>)
        ensures
            self.escapes() ==> place is None,
            !self.escapes() ==> place is Some && place->0@ == below(root@, self@.names)
                && contained_in(root@, place->0@),
    {
        if self.ascents > 0 {
            return None;
        }
        proof {
            use_type_invariant(self);
        }
        let mut text = String::from_str(root);
        let mut i: usize = 0;
        assert(self@.names.take(0) =~= Seq::<Seq<char>>::empty());
        while i < self.names.len()
            invariant
                i <= self.names.len(),
                text@ == below(root@, self@.names.take(i as int)),
            decreases self.names.len() - i,
        {
            proof {
                let longer = self@.names.take(i + 1);
                assert(longer.drop_last() =~= self@.names.take(i as int));
                assert(longer.last() == self.names[i as int]@);
                reveal_strlit("/");
                assert("/"@ =~= seq![SEPARATOR]);
            }
            text.append("/");
            text.append(self.names[i].as_str());
            i = i + 1;
        }
        assert(self@.names.take(self.names.len() as int) =~= self@.names);
        Some(text)
    }
}

/// Text that spells a path which climbs before it enters any name escapes.
pub proof fn lemma_leading_parent_escapes(text: Seq<char>)
    requires
        components(text).len() >= 1,
        is_parent(components(text)[0]),
    ensures
        normal_form(text).ascents > 0,
{
    let first = components(text).take(1);
    assert(first.drop_last() =~= Seq::<Seq<char>>::empty());
    assert(walk(first.drop_last()).ascents == 0 && walk(first.drop_last()).names.len() == 0);
    assert(walk(first) == step(walk(first.drop_last()), first.last()));
    lemma_climbs_stay(components(text), 1);
}

/// A walk never takes a climb back: the count only grows as it goes on.
pub proof fn lemma_climbs_stay(parts: Seq<Seq<char>>, first: int)
    requires
        0 <= first <= parts.len(),
    ensures
        walk(parts.take(first)).ascents <= walk(parts).ascents,
    decreases parts.len() - first,
{
    if first < parts.len() {
        assert(parts.take(first + 1).drop_last() =~= parts.take(first));
        lemma_climbs_stay(parts, first + 1);
    } else {
        assert(parts.take(first) =~= parts);
    }
}

} // verus!
