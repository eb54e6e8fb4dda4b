//! Version numbers, and how far one release is ahead of another.
use crate::number;
use crate::text;
use std::cmp::Ordering;
use vstd::prelude::*;
use vstd::string::*;

verus! {

/// A release number of three parts.
#[derive(Debug, Clone, Copy, PartialEq, Eq, Structural, Ord)]
pub struct Version {
    pub major: u64,
    pub minor: u64,
    pub patch: u64,
}

/// Whether `a` comes before `b`: by the major part, then the minor part, then the patch part.
pub open spec fn older(a: Version, b: Version) -> bool {
    ||| a.major < b.major
    ||| a.major == b.major && a.minor < b.minor
    ||| a.major == b.major && a.minor == b.minor && a.patch < b.patch
}

impl PartialOrd for Version {
    fn partial_cmp(&self, other: &Version) -> (order: Option<Ordering>) {
        if self.major != other.major {
            Some(if self.major < other.major { Ordering::Less } else { Ordering::Greater })
        } else if self.minor != other.minor {
            Some(if self.minor < other.minor { Ordering::Less } else { Ordering::Greater })
        } else if self.patch != other.patch {
            Some(if self.patch < other.patch { Ordering::Less } else { Ordering::Greater })
        } else {
            Some(Ordering::Equal)
        }
    }
}

impl vstd::std_specs::cmp::PartialOrdSpecImpl for Version {
    open spec fn obeys_partial_cmp_spec() -> bool {
        true
    }

    open spec fn partial_cmp_spec(&self, other: &Version) -> Option<Ordering> {
        if older(*self, *other) {
            Some(Ordering::Less)
        } else if older(*other, *self) {
            Some(Ordering::Greater)
        } else {
            Some(Ordering::Equal)
        }
    }
}

/// `s` without the letters `v` at its start.
pub open spec fn without_v(s: Seq<char>) -> Seq<char>
    decreases s.len(),
{
    if s.len() > 0 && s[0] == 'v' {
        without_v(s.drop_first())
    } else {
        s
    }
}

/// The pieces of `s` between its dots: one more than there are dots.
pub open spec fn dot_pieces(s: Seq<char>) -> Seq<Seq<char>>
    decreases s.len(),
{
    if s.len() == 0 {
        seq![Seq::empty()]
    } else {
        let before = dot_pieces(s.drop_last());
        if s.last() == '.' {
            before.push(Seq::empty())
        } else {
            before.drop_last().push(before.last().push(s.last()))
        }
    }
}

/// The version that `s` writes: any number of letters `v`, then exactly three numbers with dots
/// between them.
pub open spec fn version_in(s: Seq<char>) -> Option<Version> {
    let pieces = dot_pieces(without_v(s));
    if pieces.len() != 3 {
        None
    } else {
        match (number::number_in(pieces[0]), number::number_in(pieces[1]), number::number_in(pieces[2])) {
            (Some(major), Some(minor), Some(patch)) => Some(Version { major, minor, patch }),
            _ => None,
        }
    }
}

/// The text of a version: its three parts in decimal, with dots between them.
pub open spec fn version_text(v: Version) -> Seq<char> {
    number::decimal(v.major as nat) + seq!['.'] + number::decimal(v.minor as nat) + seq!['.']
        + number::decimal(v.patch as nat)
}

impl Version {
    /// Reads the version that `value` writes.
    pub fn parse(value: &str) -> (version: Option<Version>)
        ensures
            version == version_in(value@),
    {
        let chars = text::chars_of(value);
        let mut start: usize = 0;
        assert(value@.skip(0) == value@);
        while start < chars.len() && chars[start] == 'v'
            invariant
                start <= chars@.len(),
                chars@ == value@,
                without_v(value@) == without_v(value@.skip(start as int)),
            decreases chars@.len() - start,
        {
            assert(value@.skip(start as int).drop_first() == value@.skip(start + 1));
            start += 1;
        }
        let ghost rest = without_v(value@);
        assert(rest == value@.skip(start as int));
        let mut pieces: Vec<Vec<char>> = Vec::new();
        let mut piece: Vec<char> = Vec::new();
        let mut i: usize = start;
        assert(dot_pieces(rest.take(0)) == seq![Seq::<char>::empty()]);
        while i < chars.len()
            invariant
                start <= i <= chars@.len(),
                rest == chars@.skip(start as int),
                dot_pieces(rest.take(i - start)) == pieces@.map_values(|p: Vec<char>| p@).push(
                    piece@,
                ),
            decreases chars@.len() - i,
        {
            let c = chars[i];
            let ghost grown = rest.take(i - start + 1);
            let ghost views = pieces@.map_values(|p: Vec<char>| p@);
            assert(grown.drop_last() == rest.take(i - start));
            assert(grown.last() == c);
            assert(views.push(piece@).drop_last() == views);
            if c == '.' {
                pieces.push(piece);
                piece = Vec::new();
                assert(pieces@.map_values(|p: Vec<char>| p@) == views.push(pieces@.last()@));
            } else {
                piece.push(c);
            }
            i += 1;
        }
        assert(rest.take(i - start) == rest);
        pieces.push(piece);
        assert(dot_pieces(rest).len() == pieces@.len());
        assert(forall|k: int| 0 <= k < pieces@.len() ==> dot_pieces(rest)[k] == (#[trigger] pieces@[k])@);
        if pieces.len() != 3 {
            return None;
        }
        match (
            number::read_number(&pieces[0]),
            number::read_number(&pieces[1]),
            number::read_number(&pieces[2]),
        ) {
            (Some(major), Some(minor), Some(patch)) => Some(Version { major, minor, patch }),
            _ => None,
        }
    }

    /// The text of the version.
    pub fn to_string(&self) -> (text: String)
        ensures
            text@ == version_text(*self),
    {
        let mut text = String::new();
        number::push_decimal(&mut text, self.major);
        text.push('.');
        number::push_decimal(&mut text, self.minor);
        text.push('.');
        number::push_decimal(&mut text, self.patch);
        assert(text@ == version_text(*self));
        text
    }
}

/// How much an available release changes.
#[derive(Debug, Clone, Copy, PartialEq, Eq, Structural)]
pub enum UpdatePriority {
    NoUpdate,
    Patch,
    Minor,
    Major,
}

impl UpdatePriority {
    /// Whether the user is asked before an update of this kind is applied.
    pub open spec fn needs_prompt(self) -> bool {
        self is Minor || self is Major
    }

    /// Whether the user is asked before an update of this kind is applied.
    pub fn requires_prompt(self) -> (asks: bool)
        ensures
            asks == self.needs_prompt(),
    {
        matches!(self, UpdatePriority::Minor | UpdatePriority::Major)
    }
}

/// The kind of step from `current` to `latest`: none unless `latest` is newer, else the most
/// significant part that differs.
pub open spec fn update_kind(current: Version, latest: Version) -> UpdatePriority {
    if !older(current, latest) {
        UpdatePriority::NoUpdate
    } else if latest.major != current.major {
        UpdatePriority::Major
    } else if latest.minor != current.minor {
        UpdatePriority::Minor
    } else {
        UpdatePriority::Patch
    }
}

/// Classifies the step from the running version to the latest published one.
pub fn classify_update(current: Version, latest: Version) -> (priority: UpdatePriority)
    ensures
        priority == update_kind(current, latest),
{
    if latest < current {
        return UpdatePriority::NoUpdate;
    }
    if latest == current {
        return UpdatePriority::NoUpdate;
    }
    if latest.major > current.major {
        return UpdatePriority::Major;
    }
    if latest.minor > current.minor {
        return UpdatePriority::Minor;
    }
    UpdatePriority::Patch
}

/// Text without dots extends the last piece.
proof fn lemma_pieces_extend(s: Seq<char>, t: Seq<char>)
    requires
        forall|i: int| 0 <= i < t.len() ==> t[i] != '.',
    ensures
        dot_pieces(s).len() > 0,
        dot_pieces(s + t) == dot_pieces(s).drop_last().push(dot_pieces(s).last() + t),
    decreases s.len() + t.len(),
{
    if t.len() > 0 {
        lemma_pieces_extend(s, t.drop_last());
        assert((s + t).drop_last() == s + t.drop_last());
        let before = dot_pieces(s + t.drop_last());
        assert(before.drop_last() == dot_pieces(s).drop_last());
        assert(before.last().push(t.last()) == dot_pieces(s).last() + t);
    } else {
        assert(s + t == s);
        if s.len() > 0 {
            lemma_pieces_extend(s.drop_last(), t);
        }
        assert(dot_pieces(s).last() + t == dot_pieces(s).last());
        assert(dot_pieces(s).drop_last().push(dot_pieces(s).last()) == dot_pieces(s));
    }
}

/// Three pieces without dots are what dots between them set apart.
proof fn lemma_three_pieces(a: Seq<char>, b: Seq<char>, c: Seq<char>)
    requires
        forall|i: int| 0 <= i < a.len() ==> a[i] != '.',
        forall|i: int| 0 <= i < b.len() ==> b[i] != '.',
        forall|i: int| 0 <= i < c.len() ==> c[i] != '.',
    ensures
        dot_pieces(a + seq!['.'] + b + seq!['.'] + c) == seq![a, b, c],
{
    let nothing = Seq::<char>::empty();
    lemma_pieces_extend(nothing, a);
    assert(nothing + a == a);
    assert(seq![nothing].drop_last().push(nothing + a) == seq![a]);
    let two = a + seq!['.'];
    assert(two.drop_last() == a);
    assert(dot_pieces(two) == seq![a, nothing]);
    lemma_pieces_extend(two, b);
    assert(nothing + b == b);
    assert(dot_pieces(two + b) == seq![a, b]);
    let three = two + b + seq!['.'];
    assert(three.drop_last() == two + b);
    assert(dot_pieces(three) == seq![a, b, nothing]);
    lemma_pieces_extend(three, c);
    assert(nothing + c == c);
    assert(dot_pieces(three + c) == seq![a, b, c]);
}

/// Reading back the text of a version gives the version.
pub proof fn version_reads_back(v: Version)
    ensures
        version_in(version_text(v)) == Some(v),
{
    let major = number::decimal(v.major as nat);
    let minor = number::decimal(v.minor as nat);
    let patch = number::decimal(v.patch as nat);
    number::lemma_decimal(v.major as nat);
    number::lemma_decimal(v.minor as nat);
    number::lemma_decimal(v.patch as nat);
    number::decimal_reads_back(v.major);
    number::decimal_reads_back(v.minor);
    number::decimal_reads_back(v.patch);
    assert(forall|i: int| 0 <= i < major.len() ==> number::is_digit(major[i]));
    assert(forall|i: int| 0 <= i < minor.len() ==> number::is_digit(minor[i]));
    assert(forall|i: int| 0 <= i < patch.len() ==> number::is_digit(patch[i]));
    let text = version_text(v);
    assert(text[0] == major[0]);
    lemma_three_pieces(major, minor, patch);
}

/// Letters `v` in front of a version change nothing.
pub proof fn leading_v_is_ignored(s: Seq<char>)
    ensures
        version_in(seq!['v'] + s) == version_in(s),
{
    assert((seq!['v'] + s).drop_first() == s);
}

/// Versions are totally ordered: of two versions either one is older or they are equal.
pub proof fn versions_are_ordered(a: Version, b: Version)
    ensures
        older(a, b) || older(b, a) || a == b,
        !(older(a, b) && older(b, a)),
        older(a, b) ==> a != b,
{
}

/// Being older is transitive.
pub proof fn older_is_transitive(a: Version, b: Version, c: Version)
    requires
        older(a, b),
        older(b, c),
    ensures
        older(a, c),
{
}

/// An update is found exactly when the latest version is newer, and the user is asked exactly
/// when it is newer in its major or minor part.
pub proof fn prompts_for_major_and_minor(current: Version, latest: Version)
    ensures
        update_kind(current, latest) is NoUpdate <==> !older(current, latest),
        update_kind(current, latest).needs_prompt() <==> older(current, latest) && (latest.major
            != current.major || latest.minor != current.minor),
{
}

/// Versions are compared part by part, each part as a number: the first part that differs decides.
pub proof fn versions_compare_by_numbers(a: Version, b: Version)
    ensures
        ({
            let order = vstd::std_specs::cmp::PartialOrdSpec::partial_cmp_spec(&a, &b);
            &&& a.major < b.major ==> order == Some(Ordering::Less)
            &&& a.major > b.major ==> order == Some(Ordering::Greater)
            &&& a.major == b.major && a.minor < b.minor ==> order == Some(Ordering::Less)
            &&& a.major == b.major && a.minor > b.minor ==> order == Some(Ordering::Greater)
            &&& a.major == b.major && a.minor == b.minor ==> {
                &&& a.patch < b.patch ==> order == Some(Ordering::Less)
                &&& a.patch > b.patch ==> order == Some(Ordering::Greater)
                &&& a.patch == b.patch ==> order == Some(Ordering::Equal)
            }
            &&& older(a, b) <==> order == Some(Ordering::Less)
        }),
{
}

/// The kind of an update is the first part that differs, if that part has grown; where it has
/// shrunk, or nothing differs, there is no update.
pub proof fn updates_are_classified_by_numbers(current: Version, latest: Version)
    ensures
        latest.major > current.major ==> update_kind(current, latest) is Major,
        latest.major < current.major ==> update_kind(current, latest) is NoUpdate,
        latest.major == current.major && latest.minor > current.minor ==> update_kind(
            current,
            latest,
        ) is Minor,
        latest.major == current.major && latest.minor < current.minor ==> update_kind(
            current,
            latest,
        ) is NoUpdate,
        latest.major == current.major && latest.minor == current.minor && latest.patch
            > current.patch ==> update_kind(current, latest) is Patch,
        latest.major == current.major && latest.minor == current.minor && latest.patch
            <= current.patch ==> update_kind(current, latest) is NoUpdate,
        update_kind(current, latest).needs_prompt() <==> latest.major > current.major
            || latest.major == current.major && latest.minor > current.minor,
{
}

/// The user is asked before major and minor updates, not before patches.
pub proof fn patches_need_no_prompt(priority: UpdatePriority)
    ensures
        priority is Major ==> priority.needs_prompt(),
        priority is Minor ==> priority.needs_prompt(),
        priority is Patch ==> !priority.needs_prompt(),
        priority is NoUpdate ==> !priority.needs_prompt(),
{
}

/// Three pieces without dots, with dots between them, write the version of their numbers, in order;
/// where one of them is not a number, they write none.
pub proof fn three_numbers_make_a_version(a: Seq<char>, b: Seq<char>, c: Seq<char>)
    requires
        forall|i: int| 0 <= i < a.len() ==> a[i] != '.',
        forall|i: int| 0 <= i < b.len() ==> b[i] != '.',
        forall|i: int| 0 <= i < c.len() ==> c[i] != '.',
        a.len() > 0 ==> a[0] != 'v',
    ensures
        version_in(a + seq!['.'] + b + seq!['.'] + c) == match (
            number::number_in(a),
            number::number_in(b),
            number::number_in(c),
        ) {
            (Some(major), Some(minor), Some(patch)) => Some(Version { major, minor, patch }),
            _ => None,
        },
{
    let s = a + seq!['.'] + b + seq!['.'] + c;
    assert(s.len() >= 2);
    if a.len() > 0 {
        assert(s[0] == a[0]);
    } else {
        assert(s[0] == '.');
    }
    assert(without_v(s) == s);
    lemma_three_pieces(a, b, c);
    assert(seq![a, b, c][0] == a && seq![a, b, c][1] == b && seq![a, b, c][2] == c);
}

proof fn lemma_without_v(s: Seq<char>) -> (k: int)
    ensures
        0 <= k <= s.len(),
        forall|i: int| 0 <= i < k ==> s[i] == 'v',
        without_v(s) == s.skip(k),
    decreases s.len(),
{
    if s.len() > 0 && s[0] == 'v' {
        let k = lemma_without_v(s.drop_first());
        assert(s.drop_first().skip(k) == s.skip(k + 1));
        assert forall|i: int| 0 <= i < k + 1 implies s[i] == 'v' by {
            if i > 0 {
                assert(s[i] == s.drop_first()[i - 1]);
            }
        }
        k + 1
    } else {
        assert(s.skip(0) == s);
        0
    }
}

/// Pieces with dots between them.
spec fn dotted(pieces: Seq<Seq<char>>) -> Seq<char>
    decreases pieces.len(),
{
    if pieces.len() == 0 {
        Seq::empty()
    } else if pieces.len() == 1 {
        pieces[0]
    } else {
        dotted(pieces.drop_last()) + seq!['.'] + pieces.last()
    }
}

proof fn lemma_dotted(s: Seq<char>)
    ensures
        dot_pieces(s).len() > 0,
        dotted(dot_pieces(s)) == s,
    decreases s.len(),
{
    let pieces = dot_pieces(s);
    if s.len() > 0 {
        let before = dot_pieces(s.drop_last());
        lemma_dotted(s.drop_last());
        assert(s.drop_last().push(s.last()) == s);
        if s.last() == '.' {
            assert(pieces.drop_last() == before);
            assert(s.drop_last() + seq!['.'] + Seq::<char>::empty() == s);
        } else {
            assert(pieces.drop_last() == before.drop_last());
            if pieces.len() > 1 {
                assert(dotted(before.drop_last()) + seq!['.'] + before.last().push(s.last()) == (
                dotted(before.drop_last()) + seq!['.'] + before.last()).push(s.last()));
            }
        }
    }
}

/// Whatever writes a version is any number of letters `v` and three numbers with dots between them,
/// which are its parts in order.
pub proof fn versions_are_three_numbers(s: Seq<char>) -> (parts: (
    int,
    Seq<char>,
    Seq<char>,
    Seq<char>,
))
    requires
        version_in(s) is Some,
    ensures
        0 <= parts.0 <= s.len(),
        forall|i: int| 0 <= i < parts.0 ==> s[i] == 'v',
        s.skip(parts.0) == parts.1 + seq!['.'] + parts.2 + seq!['.'] + parts.3,
        number::number_in(parts.1) == Some(version_in(s)->0.major),
        number::number_in(parts.2) == Some(version_in(s)->0.minor),
        number::number_in(parts.3) == Some(version_in(s)->0.patch),
{
    let k = lemma_without_v(s);
    let pieces = dot_pieces(without_v(s));
    lemma_dotted(without_v(s));
    let two = pieces.drop_last();
    assert(two.drop_last().len() == 1);
    assert(dotted(two.drop_last()) == pieces[0]);
    assert(dotted(two) == pieces[0] + seq!['.'] + pieces[1]);
    assert(dotted(pieces) == dotted(two) + seq!['.'] + pieces[2]);
    (k, pieces[0], pieces[1], pieces[2])
}

/// The text of a version is its parts in decimal, in order, with dots between them.
pub proof fn versions_are_written_in_decimal(v: Version)
    ensures
        version_text(v) == number::decimal(v.major as nat) + "."@ + number::decimal(v.minor as nat)
            + "."@ + number::decimal(v.patch as nat),
{
    reveal_strlit(".");
    assert("."@ =~= seq!['.']);
}

} // verus!
