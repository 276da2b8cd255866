//! Slash-separated file paths: their parts, their order, joining and lexical normalization.

use vstd::prelude::*;

use crate::text::{chars_of, find_char, text_between};

verus! {

/// One part of a path.
#[derive(Debug, Clone)]
pub enum PathPart {
    /// The leading slash of an absolute path.
    Root,
    /// A leading `.`.
    Current,
    /// A `..`.
    Parent,
    /// A name.
    Name(String),
}

/// One part of a path, with the name as a sequence of characters.
#[verifier::ext_equal]
pub enum PartView {
    Root,
    Current,
    Parent,
    Name(Seq<char>),
}

impl View for PathPart {
    type V = PartView;

    open spec fn view(&self) -> PartView {
        match self {
            PathPart::Root => PartView::Root,
            PathPart::Current => PartView::Current,
            PathPart::Parent => PartView::Parent,
            PathPart::Name(name) => PartView::Name(name@),
        }
    }
}

/// The parts held by a list of path parts.
pub open spec fn part_views(parts: Seq<PathPart>) -> Seq<PartView> {
    parts.map_values(|part: PathPart| part@)
}

/// The segments of `text` between slashes, empty ones among them.
pub open spec fn segments(text: Seq<char>) -> Seq<Seq<char>>
    decreases text.len(),
{
    let at = crate::text::first_index(text, '/');
    if at < 0 || at >= text.len() {
        seq![text]
    } else {
        seq![text.take(at)] + segments(text.skip(at + 1))
    }
}

/// The part that one segment stands for: nothing for an empty segment, and nothing for a `.`
/// that is not the first segment of a relative path.
pub open spec fn segment_part(segment: Seq<char>, leading: bool) -> Option<PartView> {
    if segment.len() == 0 {
        None
    } else if segment == seq!['.'] {
        if leading {
            Some(PartView::Current)
        } else {
            None
        }
    } else if segment == seq!['.', '.'] {
        Some(PartView::Parent)
    } else {
        Some(PartView::Name(segment))
    }
}

/// The parts of the first `count` segments. A `.` leads when it is the first segment.
pub open spec fn parts_of_segments(all: Seq<Seq<char>>, count: int) -> Seq<PartView>
    decreases count,
{
    if count <= 0 {
        Seq::empty()
    } else {
        let before = parts_of_segments(all, count - 1);
        match segment_part(all[count - 1], count == 1) {
            Some(part) => before.push(part),
            None => before,
        }
    }
}

/// Whether the path begins at the root.
pub open spec fn is_absolute_path(text: Seq<char>) -> bool {
    text.len() > 0 && text[0] == '/'
}

/// The parts of a path: a leading slash is the root, repeated and trailing slashes and every
/// `.` but a leading one are dropped.
pub open spec fn path_parts(text: Seq<char>) -> Seq<PartView> {
    let rest = parts_of_segments(segments(text), segments(text).len() as int);
    if is_absolute_path(text) {
        seq![PartView::Root] + rest
    } else {
        rest
    }
}

/// Splits the path at its slashes.
fn split_segments(text: &str) -> (all: Vec<String>)
    ensures
        crate::text::texts(all@) == segments(text@),
{
    broadcast use crate::text::group_texts;

    let chars = chars_of(text);
    let mut all: Vec<String> = Vec::new();
    let mut from: usize = 0;
    proof {
        assert(chars@.skip(0) =~= chars@);
        assert(crate::text::texts(all@) + segments(chars@) =~= segments(text@));
    }
    loop
        invariant
            from <= chars.len(),
            chars@ == text@,
            crate::text::texts(all@) + segments(chars@.skip(from as int)) == segments(text@),
        decreases chars.len() - from,
    {
        let at = find_char(&chars, '/', from);
        let ghost rest = chars@.skip(from as int);
        let ghost before = crate::text::texts(all@);
        proof {
            assert(rest.take(at - from) =~= chars@.subrange(from as int, at as int));
        }
        let segment = text_between(&chars, from, at);
        all.push(segment);
        if at == chars.len() {
            proof {
                assert(rest =~= segment@);
                assert(crate::text::texts(all@) =~= before + seq![rest]);
            }
            return all;
        }
        proof {
            assert(rest.skip(at - from + 1) =~= chars@.skip(at + 1));
            assert(crate::text::texts(all@) + segments(chars@.skip(at + 1)) =~= before + (seq![
                segment@,
            ] + segments(chars@.skip(at + 1))));
        }
        from = at + 1;
    }
}

/// Whether the path begins at the root.
pub fn path_is_absolute(path: &str) -> (absolute: bool)
    ensures
        absolute == is_absolute_path(path@),
{
    path.unicode_len() > 0 && path.get_char(0) == '/'
}

/// The parts of the path.
pub fn parts_of_path(path: &str) -> (parts: Vec<PathPart>)
    ensures
        part_views(parts@) == path_parts(path@),
{
    let all = split_segments(path);
    let ghost views = segments(path@);
    let mut parts: Vec<PathPart> = Vec::new();
    let absolute = path_is_absolute(path);
    if absolute {
        parts.push(PathPart::Root);
    }
    let ghost head = part_views(parts@);
    let mut i: usize = 0;
    assert(part_views(parts@) =~= head + parts_of_segments(views, 0));
    while i < all.len()
        invariant
            i <= all.len(),
            views == segments(path@),
            crate::text::texts(all@) == views,
            part_views(parts@) == head + parts_of_segments(views, i as int),
        decreases all.len() - i,
    {
        proof {
            reveal_strlit(".");
            reveal_strlit("..");
            assert(seq!['.'] =~= "."@);
            assert(seq!['.', '.'] =~= ".."@);
            assert(all@[i as int]@ == views[i as int]);
        }
        let ghost before = part_views(parts@);
        let segment = all[i].as_str();
        if segment.unicode_len() == 0 {
        } else if crate::text::text_eq(segment, ".") {
            if i == 0 {
                parts.push(PathPart::Current);
                assert(part_views(parts@) =~= before.push(PartView::Current));
            }
        } else if crate::text::text_eq(segment, "..") {
            parts.push(PathPart::Parent);
            assert(part_views(parts@) =~= before.push(PartView::Parent));
        } else {
            parts.push(PathPart::Name(all[i].clone()));
            assert(part_views(parts@) =~= before.push(PartView::Name(views[i as int])));
        }
        i += 1;
        proof {
            match segment_part(views[i - 1], i == 1) {
                Some(part) => {
                    assert(head + parts_of_segments(views, i - 1).push(part) =~= (head
                        + parts_of_segments(views, i - 1)).push(part));
                },
                None => {},
            }
        }
    }
    proof {
        if absolute {
            assert(head =~= seq![PartView::Root]);
        } else {
            assert(head + parts_of_segments(views, views.len() as int) =~= parts_of_segments(
                views,
                views.len() as int,
            ));
        }
    }
    parts
}

/// The place of each kind of part in the order of parts.
pub open spec fn part_rank(part: PartView) -> int {
    match part {
        PartView::Root => 0,
        PartView::Current => 1,
        PartView::Parent => 2,
        PartView::Name(_) => 3,
    }
}

/// Whether `left` comes before `right` in the order of their characters.
pub open spec fn text_before(left: Seq<char>, right: Seq<char>) -> bool
    decreases left.len(),
{
    if right.len() == 0 {
        false
    } else if left.len() == 0 {
        true
    } else if left[0] == right[0] {
        text_before(left.drop_first(), right.drop_first())
    } else {
        left[0] < right[0]
    }
}

/// Whether the part `left` comes before the part `right`: by kind, and names by their text.
pub open spec fn part_before(left: PartView, right: PartView) -> bool {
    if left is Name && right is Name {
        text_before(left->Name_0, right->Name_0)
    } else {
        part_rank(left) < part_rank(right)
    }
}

/// Whether the path with the parts `left` comes before the one with the parts `right`: part by
/// part, a path before the longer ones that it begins.
pub open spec fn path_before(left: Seq<PartView>, right: Seq<PartView>) -> bool
    decreases left.len(),
{
    if right.len() == 0 {
        false
    } else if left.len() == 0 {
        true
    } else if left[0] == right[0] {
        path_before(left.drop_first(), right.drop_first())
    } else {
        part_before(left[0], right[0])
    }
}

pub proof fn lemma_text_before_total(left: Seq<char>, right: Seq<char>)
    ensures
        left == right || text_before(left, right) || text_before(right, left),
        !(text_before(left, right) && text_before(right, left)),
        left == right ==> !text_before(left, right),
    decreases left.len(),
{
    if left.len() == 0 || right.len() == 0 {
        if left.len() == 0 && right.len() == 0 {
            assert(left =~= right);
        }
    } else if left[0] == right[0] {
        lemma_text_before_total(left.drop_first(), right.drop_first());
        if left.drop_first() == right.drop_first() {
            assert(left =~= seq![left[0]] + left.drop_first());
            assert(right =~= seq![right[0]] + right.drop_first());
        }
    }
}

pub proof fn lemma_text_before_transitive(a: Seq<char>, b: Seq<char>, c: Seq<char>)
    requires
        text_before(a, b),
        text_before(b, c),
    ensures
        text_before(a, c),
    decreases a.len(),
{
    if a.len() > 0 && a[0] == b[0] && b[0] == c[0] {
        lemma_text_before_transitive(a.drop_first(), b.drop_first(), c.drop_first());
    }
}

proof fn lemma_part_before_total(left: PartView, right: PartView)
    ensures
        left == right || part_before(left, right) || part_before(right, left),
        !(part_before(left, right) && part_before(right, left)),
        left == right ==> !part_before(left, right),
{
    if left is Name && right is Name {
        lemma_text_before_total(left->Name_0, right->Name_0);
    }
}

proof fn lemma_part_before_transitive(a: PartView, b: PartView, c: PartView)
    requires
        part_before(a, b),
        part_before(b, c),
    ensures
        part_before(a, c),
{
    if a is Name && b is Name && c is Name {
        lemma_text_before_transitive(a->Name_0, b->Name_0, c->Name_0);
    }
}

/// Two paths are the same or one comes before the other, and never both.
pub proof fn lemma_path_before_total(left: Seq<PartView>, right: Seq<PartView>)
    ensures
        left == right || path_before(left, right) || path_before(right, left),
        !(path_before(left, right) && path_before(right, left)),
        left == right ==> !path_before(left, right),
    decreases left.len(),
{
    if left.len() == 0 || right.len() == 0 {
        if left.len() == 0 && right.len() == 0 {
            assert(left =~= right);
        }
    } else if left[0] == right[0] {
        lemma_path_before_total(left.drop_first(), right.drop_first());
        if left.drop_first() == right.drop_first() {
            assert(left =~= seq![left[0]] + left.drop_first());
            assert(right =~= seq![right[0]] + right.drop_first());
        }
    } else {
        lemma_part_before_total(left[0], right[0]);
    }
}

/// The order of paths is transitive.
pub proof fn lemma_path_before_transitive(a: Seq<PartView>, b: Seq<PartView>, c: Seq<PartView>)
    requires
        path_before(a, b),
        path_before(b, c),
    ensures
        path_before(a, c),
    decreases a.len(),
{
    if a.len() > 0 {
        if a[0] == b[0] && b[0] == c[0] {
            lemma_path_before_transitive(a.drop_first(), b.drop_first(), c.drop_first());
        } else if a[0] != b[0] && b[0] != c[0] {
            lemma_part_before_transitive(a[0], b[0], c[0]);
            lemma_part_before_total(a[0], c[0]);
        }
    }
}

/// How two things stand in an order.
#[derive(Debug, Clone, Copy, PartialEq, Eq, Structural)]
pub enum Placement {
    Before,
    Same,
    After,
}

/// How `left` stands to `right` in the order of their characters.
pub fn place_texts(left: &str, right: &str) -> (placement: Placement)
    ensures
        placement is Before <==> text_before(left@, right@),
        placement is Same <==> left@ == right@,
{
    let a = chars_of(left);
    let b = chars_of(right);
    let mut i: usize = 0;
    assert(a@.skip(0) =~= a@);
    assert(b@.skip(0) =~= b@);
    while i < a.len() && i < b.len()
        invariant
            i <= a.len(),
            i <= b.len(),
            a@ == left@,
            b@ == right@,
            a@.take(i as int) == b@.take(i as int),
            text_before(a@.skip(i as int), b@.skip(i as int)) == text_before(left@, right@),
        decreases a.len() - i,
    {
        if a[i] != b[i] {
            if a[i] < b[i] {
                return Placement::Before;
            } else {
                return Placement::After;
            }
        }
        assert(a@.skip(i as int).drop_first() =~= a@.skip(i + 1));
        assert(b@.skip(i as int).drop_first() =~= b@.skip(i + 1));
        assert(a@.take(i + 1) =~= a@.take(i as int).push(a@[i as int]));
        assert(b@.take(i + 1) =~= b@.take(i as int).push(b@[i as int]));
        i += 1;
    }
    if a.len() < b.len() {
        Placement::Before
    } else if a.len() == b.len() {
        assert(a@.take(i as int) =~= a@);
        assert(b@.take(i as int) =~= b@);
        proof {
            lemma_text_before_total(left@, right@);
        }
        Placement::Same
    } else {
        Placement::After
    }
}

fn place_parts(left: &PathPart, right: &PathPart) -> (placement: Placement)
    ensures
        placement is Before <==> part_before(left@, right@),
        placement is Same <==> left@ == right@,
{
    proof {
        lemma_part_before_total(left@, right@);
    }
    match (left, right) {
        (PathPart::Name(a), PathPart::Name(b)) => place_texts(a.as_str(), b.as_str()),
        (PathPart::Name(_), _) => Placement::After,
        (_, PathPart::Name(_)) => Placement::Before,
        (PathPart::Parent, PathPart::Parent) => Placement::Same,
        (PathPart::Parent, _) => Placement::After,
        (_, PathPart::Parent) => Placement::Before,
        (PathPart::Current, PathPart::Current) => Placement::Same,
        (PathPart::Current, _) => Placement::After,
        (_, PathPart::Current) => Placement::Before,
        (PathPart::Root, PathPart::Root) => Placement::Same,
    }
}

/// How the path `left` stands to the path `right` in the order of paths.
pub fn place_paths(left: &str, right: &str) -> (placement: Placement)
    ensures
        placement is Before <==> path_before(path_parts(left@), path_parts(right@)),
        placement is Same <==> path_parts(left@) == path_parts(right@),
{
    let a = parts_of_path(left);
    let b = parts_of_path(right);
    let ghost pa = path_parts(left@);
    let ghost pb = path_parts(right@);
    let mut i: usize = 0;
    assert(pa.skip(0) =~= pa);
    assert(pb.skip(0) =~= pb);
    while i < a.len() && i < b.len()
        invariant
            i <= a.len(),
            i <= b.len(),
            part_views(a@) == pa,
            part_views(b@) == pb,
            pa.take(i as int) == pb.take(i as int),
            path_before(pa.skip(i as int), pb.skip(i as int)) == path_before(pa, pb),
            pa == path_parts(left@),
            pb == path_parts(right@),
        decreases a.len() - i,
    {
        assert(a@[i as int]@ == pa[i as int]);
        assert(b@[i as int]@ == pb[i as int]);
        let placement = place_parts(&a[i], &b[i]);
        match placement {
            Placement::Same => {},
            _ => {
                assert(pa[i as int] != pb[i as int]);
                return placement;
            },
        }
        assert(pa.skip(i as int).drop_first() =~= pa.skip(i + 1));
        assert(pb.skip(i as int).drop_first() =~= pb.skip(i + 1));
        assert(pa.take(i + 1) =~= pa.take(i as int).push(pa[i as int]));
        assert(pb.take(i + 1) =~= pb.take(i as int).push(pb[i as int]));
        i += 1;
    }
    if a.len() < b.len() {
        Placement::Before
    } else if a.len() == b.len() {
        assert(pa.take(i as int) =~= pa);
        assert(pb.take(i as int) =~= pb);
        proof {
            lemma_path_before_total(pa, pb);
        }
        Placement::Same
    } else {
        Placement::After
    }
}

/// A value under a path.
#[derive(Debug, Clone)]
pub struct PathEntry<V> {
    pub path: String,
    pub value: V,
}

/// Values keyed by path, held in the order of their paths. Two paths with the same parts are
/// the same key.
#[derive(Debug, Clone)]
pub struct PathMap<V> {
    entries: Vec<PathEntry<V>>,
}

/// Whether the paths of `entries` stand in strictly ascending order.
pub open spec fn paths_ascending<V>(entries: Seq<(Seq<char>, V)>) -> bool {
    forall|i: int, j: int|
        0 <= i < j < entries.len() ==> path_before(
        path_parts(#[trigger] entries[i].0),
        path_parts(#[trigger] entries[j].0),
    )
}

/// Whether some entry has the path with the parts `parts`.
pub open spec fn has_path<V>(entries: Seq<(Seq<char>, V)>, parts: Seq<PartView>) -> bool {
    exists|i: int| 0 <= i < entries.len() && path_parts(#[trigger] entries[i].0) == parts
}

impl<V> View for PathMap<V> {
    type V = Seq<(Seq<char>, V)>;

    closed spec fn view(&self) -> Seq<(Seq<char>, V)> {
        self.entries@.map_values(|entry: PathEntry<V>| (entry.path@, entry.value))
    }
}

impl<V> PathMap<V> {
    /// The entries stand in ascending order of their paths, each path once.
    pub open spec fn wf(&self) -> bool {
        paths_ascending(self@)
    }

    /// The map without entries.
    pub fn new() -> (map: Self)
        ensures
            map.wf(),
            map@ == Seq::<(Seq<char>, V)>::empty(),
    {
        let map = PathMap { entries: Vec::new() };
        assert(map@ =~= Seq::<(Seq<char>, V)>::empty());
        map
    }

    /// The number of entries.
    pub fn len(&self) -> (len: usize)
        ensures
            len == self@.len(),
    {
        self.entries.len()
    }

    /// The path of the entry at `index`, in the order of paths.
    pub fn path_at(&self, index: usize) -> (path: &String)
        requires
            index < self@.len(),
        ensures
            path@ == self@[index as int].0,
    {
        &self.entries[index].path
    }

    /// The value of the entry at `index`, in the order of paths.
    pub fn value_at(&self, index: usize) -> (value: &V)
        requires
            index < self@.len(),
        ensures
            *value == self@[index as int].1,
    {
        &self.entries[index].value
    }

    /// The value of the entry at `index`, to be changed in place.
    pub fn value_at_mut(&mut self, index: usize) -> (value: &mut V)
        requires
            index < old(self)@.len(),
        ensures
            *value == old(self)@[index as int].1,
            final(self)@ == old(self)@.update(
                index as int,
                (old(self)@[index as int].0, *final(value)),
            ),
    {
        let entry = &mut self.entries[index];
        &mut entry.value
    }

    /// The index of the entry whose path has the same parts as `path`.
    pub fn position(&self, path: &str) -> (index: Option<usize>)
        ensures
            match index {
                Some(i) => i < self@.len() && path_parts(self@[i as int].0) == path_parts(path@),
                None => !has_path(self@, path_parts(path@)),
            },
    {
        let mut i: usize = 0;
        while i < self.entries.len()
            invariant
                i <= self.entries.len(),
                forall|j: int| 0 <= j < i ==> path_parts(
                    #[trigger] self@[j].0,
                ) != path_parts(path@),
            decreases self.entries.len() - i,
        {
            assert(self@[i as int].0 == self.entries@[i as int].path@);
            match place_paths(self.entries[i].path.as_str(), path) {
                Placement::Same => {
                    return Some(i);
                },
                _ => {},
            }
            i += 1;
        }
        None
    }

    /// Adds an entry under a path that the map does not hold yet, at its place in the order.
    pub fn insert_new(&mut self, path: String, value: V) -> (at: Ghost<int>)
        requires
            old(self).wf(),
            !has_path(old(self)@, path_parts(path@)),
        ensures
            final(self).wf(),
            0 <= at@ <= old(self)@.len(),
            final(self)@ == old(self)@.insert(at@, (path@, value)),
    {
        let ghost before = self@;
        let ghost key = path_parts(path@);
        let mut i: usize = 0;
        while i < self.entries.len() && matches!(
            place_paths(self.entries[i].path.as_str(), path.as_str()),
            Placement::Before
        )
            invariant
                i <= self.entries.len(),
                self@ == before,
                key == path_parts(path@),
                forall|j: int| 0 <= j < i ==> path_before(path_parts(#[trigger] before[j].0), key),
            decreases self.entries.len() - i,
        {
            assert(before[i as int].0 == self.entries@[i as int].path@);
            i += 1;
        }
        proof {
            if i < self.entries@.len() {
                assert(before[i as int].0 == self.entries@[i as int].path@);
                lemma_path_before_total(path_parts(before[i as int].0), key);
                assert(path_parts(before[i as int].0) != key);
            }
        }
        let ghost entry = (path@, value);
        self.entries.insert(i, PathEntry { path, value });
        proof {
            assert(self@ =~= before.insert(i as int, entry));
            let after = self@;
            assert forall|a: int, b: int| 0 <= a < b < after.len() implies path_before(
                path_parts(#[trigger] after[a].0),
                path_parts(#[trigger] after[b].0),
            ) by {
                if b < i {
                    assert(after[a] == before[a] && after[b] == before[b]);
                } else if b == i {
                    assert(after[a] == before[a]);
                } else if a < i {
                    assert(after[a] == before[a] && after[b] == before[b - 1]);
                } else if a == i {
                    assert(after[b] == before[b - 1]);
                    if b - 1 > i {
                        lemma_path_before_transitive(
                            key,
                            path_parts(before[i as int].0),
                            path_parts(before[b - 1].0),
                        );
                    }
                } else {
                    assert(after[a] == before[a - 1] && after[b] == before[b - 1]);
                }
            }
        }
        Ghost(i as int)
    }
}

/// The path `path` below the directory `base`; an absolute `path` stands for itself.
pub open spec fn joined_path(base: Seq<char>, path: Seq<char>) -> Seq<char> {
    if is_absolute_path(path) {
        path
    } else if base.len() == 0 || base.last() == '/' {
        base + path
    } else {
        base + "/"@ + path
    }
}

/// The path `path` below the directory `base`; an absolute `path` stands for itself.
pub fn join_path(base: &str, path: &str) -> (joined: String)
    ensures
        joined@ == joined_path(base@, path@),
{
    if path_is_absolute(path) {
        return path.to_owned();
    }
    let len = base.unicode_len();
    if len == 0 || base.get_char(len - 1) == '/' {
        base.to_owned().concat(path)
    } else {
        base.to_owned().concat("/").concat(path)
    }
}

/// The parts that are left of the first `count` parts when every `.` is dropped and every `..`
/// takes the name before it away.
pub open spec fn normalized_parts(parts: Seq<PartView>, count: int) -> Seq<PartView>
    decreases count,
{
    if count <= 0 {
        Seq::empty()
    } else {
        let before = normalized_parts(parts, count - 1);
        match parts[count - 1] {
            PartView::Current => before,
            PartView::Parent => if before.len() > 0 && before.last() is Name {
                before.drop_last()
            } else {
                before.push(PartView::Parent)
            },
            other => before.push(other),
        }
    }
}

/// The parts of the path with its `.` and `..` resolved by their spelling alone.
pub open spec fn normalized(path: Seq<char>) -> Seq<PartView> {
    normalized_parts(path_parts(path), path_parts(path).len() as int)
}

/// Resolves `.` and `..` in the path by their spelling alone.
pub fn normalize_path(path: &str) -> (parts: Vec<PathPart>)
    ensures
        part_views(parts@) == normalized(path@),
{
    let all = parts_of_path(path);
    let ghost views = path_parts(path@);
    let mut parts: Vec<PathPart> = Vec::new();
    let mut i: usize = 0;
    assert(part_views(parts@) =~= normalized_parts(views, 0));
    while i < all.len()
        invariant
            i <= all.len(),
            views == path_parts(path@),
            part_views(all@) == views,
            part_views(parts@) == normalized_parts(views, i as int),
        decreases all.len() - i,
    {
        let ghost before = part_views(parts@);
        assert(all@[i as int]@ == views[i as int]);
        match &all[i] {
            PathPart::Current => {},
            PathPart::Parent => {
                let behind_name = if parts.len() > 0 {
                    assert(before.last() == parts@.last()@);
                    match &parts[parts.len() - 1] {
                        PathPart::Name(_) => true,
                        _ => false,
                    }
                } else {
                    false
                };
                if behind_name {
                    parts.pop();
                    assert(part_views(parts@) =~= before.drop_last());
                } else {
                    parts.push(PathPart::Parent);
                    assert(part_views(parts@) =~= before.push(PartView::Parent));
                }
            },
            PathPart::Root => {
                parts.push(PathPart::Root);
                assert(part_views(parts@) =~= before.push(PartView::Root));
            },
            PathPart::Name(name) => {
                parts.push(PathPart::Name(name.clone()));
                assert(part_views(parts@) =~= before.push(PartView::Name(name@)));
            },
        }
        i += 1;
    }
    parts
}

/// The name that the path ends with, where its last part is a name.
pub open spec fn final_name(parts: Seq<PartView>) -> Option<Seq<char>> {
    if parts.len() > 0 && parts.last() is Name {
        Some(parts.last()->Name_0)
    } else {
        None
    }
}

/// The name that the path ends with, where its last part is a name.
pub fn file_name(parts: &Vec<PathPart>) -> (name: Option<String>)
    ensures
        crate::text::opt_text(name) == final_name(part_views(parts@)),
{
    if parts.len() == 0 {
        return None;
    }
    assert(part_views(parts@).last() == parts@.last()@);
    match &parts[parts.len() - 1] {
        PathPart::Name(name) => Some(name.clone()),
        _ => None,
    }
}

/// No part that is left by normalization is a `.`, and a `..` is left only behind the root,
/// behind another `..` or at the front.
pub open spec fn parts_resolved(parts: Seq<PartView>) -> bool {
    &&& forall|i: int| 0 <= i < parts.len() ==> !(#[trigger] parts[i] is Current)
    &&& forall|i: int|
        0 < i < parts.len() && #[trigger] parts[i] is Parent ==> !(parts[i - 1] is Name)
}

/// Normalization leaves no `.`, and no `..` behind a name.
pub proof fn lemma_normalized_resolved(parts: Seq<PartView>, count: int)
    requires
        count <= parts.len(),
    ensures
        parts_resolved(normalized_parts(parts, count)),
    decreases count,
{
    if count > 0 {
        lemma_normalized_resolved(parts, count - 1);
        let before = normalized_parts(parts, count - 1);
        let after = normalized_parts(parts, count);
        assert forall|i: int| 0 < i < after.len() && #[trigger] after[i] is Parent implies !(after[i
            - 1] is Name) by {
            if i < before.len() {
                assert(before[i] == after[i]);
                assert(before[i - 1] == after[i - 1]);
            } else {
                assert(after[i - 1] == before.last());
            }
        }
        assert forall|i: int| 0 <= i < after.len() implies !(#[trigger] after[i] is Current) by {
            if i < before.len() {
                assert(before[i] == after[i]);
            }
        }
    }
}

/// Parts that are resolved already are left as they are.
pub proof fn lemma_normalized_fixed(parts: Seq<PartView>, count: int)
    requires
        0 <= count <= parts.len(),
        parts_resolved(parts),
    ensures
        normalized_parts(parts, count) == parts.take(count),
    decreases count,
{
    if count > 0 {
        lemma_normalized_fixed(parts, count - 1);
        assert(parts.take(count) =~= parts.take(count - 1).push(parts[count - 1]));
        if parts[count - 1] is Parent && count - 1 > 0 {
            assert(parts.take(count - 1).last() == parts[count - 2]);
        }
    } else {
        assert(parts.take(0) =~= Seq::empty());
    }
}

/// Normalizing a second time changes nothing.
pub proof fn law_normalize_idempotent(path: Seq<char>)
    ensures
        normalized_parts(normalized(path), normalized(path).len() as int) == normalized(path),
{
    lemma_normalized_resolved(path_parts(path), path_parts(path).len() as int);
    lemma_normalized_fixed(normalized(path), normalized(path).len() as int);
    assert(normalized(path).take(normalized(path).len() as int) =~= normalized(path));
}

/// Whether a path is plain: relative, without a `..` and without a leading `.`.
pub open spec fn plain_path(path: Seq<char>) -> bool {
    &&& !is_absolute_path(path)
    &&& !path_parts(path).contains(PartView::Parent)
    &&& !path_parts(path).contains(PartView::Current)
}

/// The segments of two texts with a slash between them are those of the one and the other.
proof fn lemma_segments_joined(left: Seq<char>, right: Seq<char>)
    ensures
        segments(left + seq!['/'] + right) == segments(left) + segments(right),
    decreases left.len(),
{
    let whole = left + seq!['/'] + right;
    let at = crate::text::first_index(left, '/');
    crate::text::lemma_first_index_bounds(left, '/');
    assert forall|j: int| 0 <= j < at implies whole[j] != '/' by {
        assert(whole[j] == left[j]);
    }
    if at < left.len() {
        crate::text::lemma_first_index_at(whole, '/', at);
        assert(whole.take(at) =~= left.take(at));
        assert(whole.skip(at + 1) =~= left.skip(at + 1) + seq!['/'] + right);
        lemma_segments_joined(left.skip(at + 1), right);
        assert(segments(whole) =~= segments(left) + segments(right));
    } else {
        crate::text::lemma_first_index_at(whole, '/', left.len() as int);
        assert(whole.take(left.len() as int) =~= left);
        assert(whole.skip((left.len() + 1) as int) =~= right);
        assert(segments(whole) =~= seq![left] + segments(right));
    }
}

proof fn lemma_segments_some(text: Seq<char>)
    ensures
        segments(text).len() > 0,
{
}

/// The parts of segments behind others are those behind the others' parts, but for a leading `.`.
proof fn lemma_parts_joined(left: Seq<Seq<char>>, right: Seq<Seq<char>>, count: int)
    requires
        left.len() > 0,
        0 <= count <= right.len(),
        right.len() > 0 ==> right[0] != seq!['.'],
    ensures
        parts_of_segments(left + right, left.len() + count) == parts_of_segments(
            left,
            left.len() as int,
        ) + parts_of_segments(right, count),
    decreases count,
{
    if count == 0 {
        lemma_parts_front(left, right, left.len() as int);
        assert(parts_of_segments(left, left.len() as int) + parts_of_segments(right, 0)
            =~= parts_of_segments(left, left.len() as int));
    } else {
        lemma_parts_joined(left, right, count - 1);
        assert((left + right)[left.len() + count - 1] == right[count - 1]);
        assert(parts_of_segments(left + right, left.len() + count) =~= parts_of_segments(
            left,
            left.len() as int,
        ) + parts_of_segments(right, count));
    }
}

proof fn lemma_parts_front(left: Seq<Seq<char>>, right: Seq<Seq<char>>, count: int)
    requires
        0 <= count <= left.len(),
    ensures
        parts_of_segments(left + right, count) == parts_of_segments(left, count),
    decreases count,
{
    if count > 0 {
        lemma_parts_front(left, right, count - 1);
        assert((left + right)[count - 1] == left[count - 1]);
    }
}

proof fn lemma_parts_keep_the_first(all: Seq<Seq<char>>, count: int)
    requires
        1 <= count <= all.len(),
        all[0] == seq!['.'],
    ensures
        parts_of_segments(all, count).contains(PartView::Current),
    decreases count,
{
    if count == 1 {
        assert(parts_of_segments(all, 0) =~= Seq::empty());
        assert(parts_of_segments(all, 1)[0] == PartView::Current);
    } else {
        lemma_parts_keep_the_first(all, count - 1);
        let before = parts_of_segments(all, count - 1);
        let i = choose|i: int| 0 <= i < before.len() && before[i] == PartView::Current;
        assert(parts_of_segments(all, count)[i] == PartView::Current);
    }
}

/// The parts of a path below a directory are those of the directory and of the path.
pub proof fn law_joined_parts(base: Seq<char>, path: Seq<char>)
    requires
        !is_absolute_path(base),
        !is_absolute_path(path),
        !path_parts(path).contains(PartView::Current),
    ensures
        !is_absolute_path(joined_path(base, path)),
        path_parts(joined_path(base, path)) == path_parts(base) + path_parts(path),
{
    reveal_strlit("/");
    assert("/"@ =~= seq!['/']);
    let right = segments(path);
    lemma_segments_some(path);
    if right[0] == seq!['.'] {
        lemma_parts_keep_the_first(right, right.len() as int);
    }
    if base.len() == 0 {
        assert(base + path =~= path);
        assert(segments(base) =~= seq![base]);
        assert(parts_of_segments(segments(base), 0) =~= Seq::empty());
        assert(path_parts(base) =~= Seq::empty());
        assert(path_parts(base) + path_parts(path) =~= path_parts(path));
    } else if base.last() == '/' {
        let front = base.drop_last();
        assert(base =~= front + seq!['/'] + Seq::<char>::empty());
        assert(base + path =~= front + seq!['/'] + path);
        lemma_segments_joined(front, Seq::empty());
        lemma_segments_joined(front, path);
        let left = segments(front);
        lemma_segments_some(front);
        let nothing = segments(Seq::<char>::empty());
        assert(nothing =~= seq![Seq::<char>::empty()]);
        lemma_parts_joined(left, right, right.len() as int);
        lemma_parts_joined(left, nothing, 1);
        assert(parts_of_segments(nothing, 0) =~= Seq::empty());
        assert(parts_of_segments(nothing, 1) =~= Seq::empty());
        assert(path_parts(base) =~= parts_of_segments(left, left.len() as int));
    } else {
        lemma_segments_joined(base, path);
        lemma_segments_some(base);
        lemma_parts_joined(segments(base), right, right.len() as int);
    }
}

/// Two paths below one directory stand to each other as they do without it.
pub proof fn law_directory_keeps_the_order(
    base: Seq<PartView>,
    left: Seq<PartView>,
    right: Seq<PartView>,
)
    ensures
        path_before(base + left, base + right) == path_before(left, right),
    decreases base.len(),
{
    if base.len() == 0 {
        assert(base + left =~= left);
        assert(base + right =~= right);
    } else {
        assert((base + left).drop_first() =~= base.drop_first() + left);
        assert((base + right).drop_first() =~= base.drop_first() + right);
        law_directory_keeps_the_order(base.drop_first(), left, right);
    }
}

/// A plain path below a plain directory is plain.
pub proof fn law_joined_is_plain(base: Seq<char>, path: Seq<char>)
    requires
        plain_path(base),
        plain_path(path),
    ensures
        plain_path(joined_path(base, path)),
{
    law_joined_parts(base, path);
    let parts = path_parts(base) + path_parts(path);
    assert forall|part: PartView| parts.contains(part) implies path_parts(base).contains(part)
        || path_parts(path).contains(part) by {
        let i = choose|i: int| 0 <= i < parts.len() && parts[i] == part;
        if i < path_parts(base).len() {
            assert(path_parts(base)[i] == part);
        } else {
            assert(path_parts(path)[i - path_parts(base).len()] == part);
        }
    }
}

/// A path below a directory that is itself below another is the path below the two together.
pub proof fn law_joining_twice(outer: Seq<char>, inner: Seq<char>, path: Seq<char>)
    requires
        !is_absolute_path(inner),
        !is_absolute_path(path),
    ensures
        joined_path(outer, joined_path(inner, path)) == joined_path(
            joined_path(outer, inner),
            path,
        ),
{
    reveal_strlit("/");
    let below = joined_path(inner, path);
    assert(!is_absolute_path(below)) by {
        if inner.len() > 0 {
            assert(below[0] == inner[0]);
        } else {
            assert(below =~= path);
        }
    }
    let both = joined_path(outer, inner);
    if inner.len() > 0 {
        assert(both.last() == inner.last());
    } else if outer.len() > 0 && outer.last() != '/' {
        assert(both.last() == '/');
        assert(both =~= outer + "/"@);
    } else {
        assert(both =~= outer);
    }
    assert(joined_path(outer, below) =~= joined_path(both, path));
}

} // verus!
