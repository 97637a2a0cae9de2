//! The report of the media probe: sections of `KEY=VALUE` lines between
//! `[NAME]` and `[/NAME]`.

use vstd::prelude::*;
use vstd::string::*;

use crate::error::{Error, ErrorView};
use crate::text::{
    ascii_lower, charsOf, charsSpell, concatText, findFrom, first_index_of, lines_of, lowerChars,
    sameText, sliceText, splitLines,
};

verus! {

/// One section of the probe's report.
#[derive(Debug, Clone)]
pub struct ProbedMetadataSection {
    pub name: String,
    /// The pairs of the section in the order in which they were read. Where
    /// a key stands more than once, the last pair counts.
    pub metadata: Vec<(String, String)>,
}

/// The mathematical value of a [`ProbedMetadataSection`]: its name and
/// its pairs in the order of the report.
pub struct SectionView {
    pub name: Seq<char>,
    pub pairs: Seq<(Seq<char>, Seq<char>)>,
}

/// The texts of a list of pairs.
pub open spec fn pairs_view(pairs: Seq<(String, String)>) -> Seq<(Seq<char>, Seq<char>)> {
    pairs.map_values(|pair: (String, String)| (pair.0@, pair.1@))
}

/// The value of the last of `pairs` whose key is `key`.
pub open spec fn last_value(pairs: Seq<(Seq<char>, Seq<char>)>, key: Seq<char>) -> Option<
    Seq<char>,
>
    decreases pairs.len(),
{
    if pairs.len() == 0 {
        None
    } else if pairs.last().0 == key {
        Some(pairs.last().1)
    } else {
        last_value(pairs.drop_last(), key)
    }
}

/// The value of the last of `pairs` whose key, with its ASCII capital
/// letters in lower case, is `key`.
pub open spec fn last_value_folded(pairs: Seq<(Seq<char>, Seq<char>)>, key: Seq<char>) -> Option<
    Seq<char>,
>
    decreases pairs.len(),
{
    if pairs.len() == 0 {
        None
    } else if ascii_lower(pairs.last().0) == key {
        Some(pairs.last().1)
    } else {
        last_value_folded(pairs.drop_last(), key)
    }
}

impl View for ProbedMetadataSection {
    type V = SectionView;

    open spec fn view(&self) -> SectionView {
        SectionView { name: self.name@, pairs: pairs_view(self.metadata@) }
    }
}

impl SectionView {
    /// A section called `name` that holds nothing yet.
    pub open spec fn named(name: Seq<char>) -> SectionView {
        SectionView { name, pairs: Seq::empty() }
    }

    /// The section with the pair of `key` and `value` after its other
    /// pairs.
    pub open spec fn with(self, key: Seq<char>, value: Seq<char>) -> SectionView {
        SectionView { name: self.name, pairs: self.pairs.push((key, value)) }
    }

    /// The value of `key`, where the section has one: that of the last
    /// pair with that key.
    pub open spec fn get(self, key: Seq<char>) -> Option<Seq<char>> {
        last_value(self.pairs, key)
    }

    /// The value of the key that is written as `key` without regard to the
    /// case of its ASCII letters, where the section has one: that of the
    /// last pair with such a key. `key` is in lower case.
    pub open spec fn get_folded(self, key: Seq<char>) -> Option<Seq<char>> {
        last_value_folded(self.pairs, key)
    }
}

impl ProbedMetadataSection {
    /// A section without a name that holds nothing.
    pub fn new() -> (section: Self)
        ensures
            section@ == SectionView::named(Seq::empty()),
    {
        Self::named(String::new())
    }

    /// A section called `name` that holds nothing yet.
    pub fn named(name: String) -> (section: Self)
        ensures
            section@ == SectionView::named(name@),
    {
        let metadata: Vec<(String, String)> = Vec::new();
        assert(pairs_view(metadata@) == Seq::<(Seq<char>, Seq<char>)>::empty());
        Self { name, metadata }
    }

    /// Adds the pair of `key` and `value` after the other pairs, so that
    /// it counts over every earlier pair with that key.
    pub fn insert(&mut self, key: String, value: String)
        ensures
            final(self)@ == old(self)@.with(key@, value@),
    {
        let ghost before = pairs_view(self.metadata@);
        self.metadata.push((key, value));
        assert(pairs_view(self.metadata@) == before.push((key@, value@)));
    }

    /// The value of `key`, where the section has one.
    pub fn get(&self, key: &str) -> (value: Option<&String>)
        ensures
            match value {
                Some(text) => self@.get(key@) == Some(text@),
                None => self@.get(key@) is None,
            },
    {
        let ghost pairs = self@.pairs;
        let mut i: usize = self.metadata.len();
        assert(pairs.take(i as int) == pairs);
        while i > 0
            invariant
                i <= self.metadata.len(),
                pairs == pairs_view(self.metadata@),
                last_value(pairs, key@) == last_value(pairs.take(i as int), key@),
            decreases i,
        {
            i -= 1;
            assert(pairs.take(i + 1).last() == (self.metadata@[i as int].0@, self.metadata@[i as int].1@));
            assert(pairs.take(i + 1).drop_last() == pairs.take(i as int));
            if sameText(self.metadata[i].0.as_str(), key) {
                return Some(&self.metadata[i].1);
            }
        }
        None
    }

    /// The value of the key that is written as `key` without regard to the
    /// case of its ASCII letters, where the section has one. `key` is in
    /// lower case.
    pub fn getFolded(&self, key: &str) -> (value: Option<&String>)
        ensures
            match value {
                Some(text) => self@.get_folded(key@) == Some(text@),
                None => self@.get_folded(key@) is None,
            },
    {
        let ghost pairs = self@.pairs;
        let mut i: usize = self.metadata.len();
        assert(pairs.take(i as int) == pairs);
        while i > 0
            invariant
                i <= self.metadata.len(),
                pairs == pairs_view(self.metadata@),
                last_value_folded(pairs, key@) == last_value_folded(pairs.take(i as int), key@),
            decreases i,
        {
            i -= 1;
            assert(pairs.take(i + 1).last() == (self.metadata@[i as int].0@, self.metadata@[i as int].1@));
            assert(pairs.take(i + 1).drop_last() == pairs.take(i as int));
            let folded = lowerChars(self.metadata[i].0.as_str());
            if charsSpell(&folded, key) {
                return Some(&self.metadata[i].1);
            }
        }
        None
    }
}

/// What a line of the report is.
#[derive(Debug)]
pub enum ProbeLine {
    /// An empty line.
    Blank,
    /// `[NAME]`: the section `NAME` begins.
    Begin(String),
    /// `[/NAME]`: the section `NAME` ends.
    End(String),
    /// `KEY=VALUE`, cut at the first `=`.
    Pair(String, String),
    /// Anything else.
    Malformed,
}

/// The mathematical value of a [`ProbeLine`].
pub enum LineView {
    Blank,
    Begin(Seq<char>),
    End(Seq<char>),
    Pair(Seq<char>, Seq<char>),
    Malformed,
}

impl View for ProbeLine {
    type V = LineView;

    open spec fn view(&self) -> LineView {
        match self {
            ProbeLine::Blank => LineView::Blank,
            ProbeLine::Begin(name) => LineView::Begin(name@),
            ProbeLine::End(name) => LineView::End(name@),
            ProbeLine::Pair(key, value) => LineView::Pair(key@, value@),
            ProbeLine::Malformed => LineView::Malformed,
        }
    }
}

/// Whether no character of `line` from `from` up to `to` is a slash.
pub open spec fn no_slash(line: Seq<char>, from: int, to: int) -> bool {
    forall|i: int| from <= i < to ==> line[i] != '/'
}

/// Whether a line opens a section: a name of at least one character, none
/// of them a slash, between square brackets.
pub open spec fn is_begin(line: Seq<char>) -> bool {
    &&& line.len() >= 3
    &&& line[0] == '['
    &&& line.last() == ']'
    &&& no_slash(line, 1, line.len() - 1)
}

/// Whether a line closes a section: a slash and then a name of at least one
/// character, none of them a slash, between square brackets.
pub open spec fn is_end(line: Seq<char>) -> bool {
    &&& line.len() >= 4
    &&& line[0] == '['
    &&& line[1] == '/'
    &&& line.last() == ']'
    &&& no_slash(line, 2, line.len() - 1)
}

/// What a line of the report is. A line that opens or closes a section is
/// never read as a pair, whatever it holds.
pub open spec fn classify(line: Seq<char>) -> LineView {
    let eq = first_index_of(line, '=');
    if line.len() == 0 {
        LineView::Blank
    } else if is_begin(line) {
        LineView::Begin(line.subrange(1, line.len() - 1))
    } else if is_end(line) {
        LineView::End(line.subrange(2, line.len() - 1))
    } else if 0 <= eq < line.len() {
        LineView::Pair(line.take(eq), line.skip(eq + 1))
    } else {
        LineView::Malformed
    }
}

/// Whether no character of `line` from `from` up to `to` is a slash.
fn noSlash(line: &Vec<char>, from: usize, to: usize) -> (none: bool)
    requires
        from <= to <= line.len(),
    ensures
        none == no_slash(line@, from as int, to as int),
{
    let mut i: usize = from;
    while i < to
        invariant
            from <= i <= to <= line.len(),
            no_slash(line@, from as int, i as int),
        decreases to - i,
    {
        if line[i] == '/' {
            return false;
        }
        i += 1;
    }
    true
}

/// What a line of the report is.
pub fn classifyLine(line: &str) -> (kind: ProbeLine)
    ensures
        kind@ == classify(line@),
{
    let chars = charsOf(line);
    let n = chars.len();
    if n == 0 {
        return ProbeLine::Blank;
    }
    if n >= 3 && chars[0] == '[' && chars[n - 1] == ']' && noSlash(&chars, 1, n - 1) {
        return ProbeLine::Begin(sliceText(&chars, 1, n - 1));
    }
    if n >= 4 && chars[0] == '[' && chars[1] == '/' && chars[n - 1] == ']' && noSlash(
        &chars,
        2,
        n - 1,
    ) {
        return ProbeLine::End(sliceText(&chars, 2, n - 1));
    }
    assert(chars@.skip(0) == chars@);
    let eq = findFrom(&chars, 0, '=');
    if eq < n {
        ProbeLine::Pair(sliceText(&chars, 0, eq), sliceText(&chars, eq + 1, n))
    } else {
        ProbeLine::Malformed
    }
}

/// Why a report cannot be read.
pub enum ProbeFault {
    /// A section is closed under another name than the one that is open;
    /// `expected` is empty where none is open.
    UnmatchedEnd { expected: Seq<char>, found: Seq<char> },
    /// A line that is no pair where one is due, or a line outside of any
    /// section.
    InvalidLine(Seq<char>),
    /// The report ends, or another section begins, while this one is open.
    Unterminated(Seq<char>),
}

impl ProbeFault {
    /// The message that reports the fault.
    pub open spec fn message(self) -> Seq<char> {
        match self {
            ProbeFault::UnmatchedEnd { expected, found } => "Unmatched section end: expect "@
                + expected + ", found "@ + found + "."@,
            ProbeFault::InvalidLine(line) => "Invalid metadata line: "@ + line,
            ProbeFault::Unterminated(name) => "Unterminated section: "@ + name,
        }
    }
}

/// Reads `lines` after the sections `done` have been read in full and
/// while `open`, if any, is being read.
pub open spec fn parse_lines(
    lines: Seq<Seq<char>>,
    done: Seq<SectionView>,
    open: Option<SectionView>,
) -> Result<Seq<SectionView>, ProbeFault>
    decreases lines.len(),
{
    if lines.len() == 0 {
        match open {
            None => Ok(done),
            Some(section) => Err(ProbeFault::Unterminated(section.name)),
        }
    } else {
        let rest = lines.drop_first();
        match (classify(lines[0]), open) {
            (LineView::Blank, _) => parse_lines(rest, done, open),
            (LineView::Begin(name), None) => parse_lines(
                rest,
                done,
                Some(SectionView::named(name)),
            ),
            (LineView::Begin(_), Some(section)) => Err(ProbeFault::Unterminated(section.name)),
            (LineView::End(name), None) => Err(
                ProbeFault::UnmatchedEnd { expected: Seq::empty(), found: name },
            ),
            (LineView::End(name), Some(section)) => if section.name == name {
                parse_lines(rest, done.push(section), None)
            } else {
                Err(ProbeFault::UnmatchedEnd { expected: section.name, found: name })
            },
            (LineView::Pair(key, value), Some(section)) => parse_lines(
                rest,
                done,
                Some(section.with(key, value)),
            ),
            (LineView::Pair(_, _), None) => Err(ProbeFault::InvalidLine(lines[0])),
            (LineView::Malformed, _) => Err(ProbeFault::InvalidLine(lines[0])),
        }
    }
}

/// The sections of a report, in the order in which they end: the report
/// is a run of sections with nothing but empty lines between them, each
/// section opened by `[NAME]`, closed by `[/NAME]` with the same name, and
/// holding one `KEY=VALUE` pair on each line that is not empty.
pub open spec fn parse_probe(text: Seq<char>) -> Result<Seq<SectionView>, ProbeFault> {
    parse_lines(lines_of(text), Seq::empty(), None)
}

/// The values of a list of sections.
pub open spec fn sections_view(sections: Seq<ProbedMetadataSection>) -> Seq<SectionView> {
    sections.map_values(|section: ProbedMetadataSection| section@)
}

/// The value of the section that is being read, if any.
pub open spec fn open_view(open: Option<ProbedMetadataSection>) -> Option<SectionView> {
    match open {
        Some(section) => Some(section@),
        None => None,
    }
}

/// The error for a section closed under the name `found` while `expected`
/// is open.
fn unmatchedEnd(expected: &str, found: &str) -> (error: Error)
    ensures
        error@ == ErrorView::RuntimeError(
            (ProbeFault::UnmatchedEnd { expected: expected@, found: found@ }).message(),
        ),
{
    let mut message = concatText("Unmatched section end: expect ", expected);
    message.append(", found ");
    message.append(found);
    message.append(".");
    Error::RuntimeError(message)
}

/// The error for a line that cannot stand where it does.
fn invalidLine(line: &str) -> (error: Error)
    ensures
        error@ == ErrorView::RuntimeError(ProbeFault::InvalidLine(line@).message()),
{
    Error::RuntimeError(concatText("Invalid metadata line: ", line))
}

/// The error for a section that is never closed.
fn unterminated(name: &str) -> (error: Error)
    ensures
        error@ == ErrorView::RuntimeError(ProbeFault::Unterminated(name@).message()),
{
    Error::RuntimeError(concatText("Unterminated section: ", name))
}

/// Reads the report that the media probe printed.
///
/// Returns the sections in the order in which they end, or the error for
/// the first line at which the report stops being one.
pub fn parseProbeOutput(output: &str) -> (result: Result<Vec<ProbedMetadataSection>, Error>)
    ensures
        match parse_probe(output@) {
            Ok(sections) => result matches Ok(found) && sections_view(found@) == sections,
            Err(fault) => result matches Err(error) && error@ == ErrorView::RuntimeError(
                fault.message(),
            ),
        },
{
    let lines = splitLines(output);
    let ghost all = lines.deep_view();
    let mut sections: Vec<ProbedMetadataSection> = Vec::new();
    let mut open: Option<ProbedMetadataSection> = None;
    let mut i: usize = 0;
    assert(all.skip(0) == all);
    assert(sections_view(sections@) == Seq::<SectionView>::empty());
    while i < lines.len()
        invariant
            i <= lines.len(),
            all == lines.deep_view(),
            all == lines_of(output@),
            parse_lines(all.skip(i as int), sections_view(sections@), open_view(open))
                == parse_probe(output@),
        decreases lines.len() - i,
    {
        let line = lines[i].as_str();
        let kind = classifyLine(line);
        proof {
            assert(all.skip(i as int)[0] == line@);
            assert(all.skip(i as int).drop_first() == all.skip(i + 1));
        }
        let ghost done = sections_view(sections@);
        match kind {
            ProbeLine::Blank => {},
            ProbeLine::Begin(name) => match open {
                None => {
                    open = Some(ProbedMetadataSection::named(name));
                },
                Some(section) => {
                    return Err(unterminated(section.name.as_str()));
                },
            },
            ProbeLine::End(name) => match open {
                None => {
                    proof {
                        reveal_strlit("");
                        assert(""@ == Seq::<char>::empty());
                    }
                    return Err(unmatchedEnd("", name.as_str()));
                },
                Some(section) => {
                    if !sameText(section.name.as_str(), name.as_str()) {
                        return Err(unmatchedEnd(section.name.as_str(), name.as_str()));
                    }
                    let ghost closed = section@;
                    sections.push(section);
                    open = None;
                    assert(sections_view(sections@) == done.push(closed));
                },
            },
            ProbeLine::Pair(key, value) => match open {
                None => {
                    return Err(invalidLine(line));
                },
                Some(mut section) => {
                    section.insert(key, value);
                    open = Some(section);
                },
            },
            ProbeLine::Malformed => {
                return Err(invalidLine(line));
            },
        }
        i += 1;
    }
    match open {
        None => Ok(sections),
        Some(section) => Err(unterminated(section.name.as_str())),
    }
}

/// Whether `name` can be the name of a section: it is not empty and holds
/// no slash.
pub open spec fn is_section_name(name: Seq<char>) -> bool {
    name.len() > 0 && no_slash(name, 0, name.len() as int)
}

/// Whether `key` can be the key of a pair: it holds no `=` and does not
/// begin like the opening or closing of a section.
pub open spec fn is_pair_key(key: Seq<char>) -> bool {
    &&& forall|i: int| 0 <= i < key.len() ==> key[i] != '='
    &&& key.len() > 0 ==> key[0] != '['
}

/// The line that holds the pair of `key` and `value`.
pub open spec fn pair_line(key: Seq<char>, value: Seq<char>) -> Seq<char> {
    key + seq!['='] + value
}

/// The lines of the pairs `pairs`, one for each.
pub open spec fn pair_lines(pairs: Seq<(Seq<char>, Seq<char>)>) -> Seq<Seq<char>> {
    pairs.map_values(|pair: (Seq<char>, Seq<char>)| pair_line(pair.0, pair.1))
}

/// The section with `pairs` after its other pairs.
pub open spec fn with_pairs(section: SectionView, pairs: Seq<(Seq<char>, Seq<char>)>)
    -> SectionView {
    SectionView { name: section.name, pairs: section.pairs + pairs }
}

/// The lines of the section `name` with the pairs `pairs`: its opening,
/// its pairs, its closing.
pub open spec fn section_lines(name: Seq<char>, pairs: Seq<(Seq<char>, Seq<char>)>) -> Seq<
    Seq<char>,
> {
    seq![seq!['['] + name + seq![']']] + pair_lines(pairs) + seq![seq!['[', '/'] + name + seq![']']]
}

/// The opening of a section is read as that, and so is its closing.
pub proof fn lemma_classify_tags(name: Seq<char>)
    requires
        is_section_name(name),
    ensures
        classify(seq!['['] + name + seq![']']) == LineView::Begin(name),
        classify(seq!['[', '/'] + name + seq![']']) == LineView::End(name),
{
    let open = seq!['['] + name + seq![']'];
    let close = seq!['[', '/'] + name + seq![']'];
    assert forall|i: int| 1 <= i < open.len() - 1 implies open[i] != '/' by {
        assert(open[i] == name[i - 1]);
    }
    assert(open.subrange(1, open.len() - 1) == name);
    assert(close[1] == '/');
    assert(!no_slash(close, 1, close.len() - 1));
    assert forall|i: int| 2 <= i < close.len() - 1 implies close[i] != '/' by {
        assert(close[i] == name[i - 2]);
    }
    assert(close.subrange(2, close.len() - 1) == name);
}

/// The line of a pair is read as that pair.
pub proof fn lemma_classify_pair(key: Seq<char>, value: Seq<char>)
    requires
        is_pair_key(key),
    ensures
        classify(pair_line(key, value)) == LineView::Pair(key, value),
{
    let line = pair_line(key, value);
    assert(line[key.len() as int] == '=');
    assert forall|i: int| 0 <= i < key.len() implies line[i] != '=' by {
        assert(line[i] == key[i]);
    }
    crate::text::lemma_first_index_of_is(line, '=', key.len() as int);
    assert(line[0] != '[') by {
        if key.len() > 0 {
            assert(line[0] == key[0]);
        }
    }
    assert(line.take(key.len() as int) == key);
    assert(line.skip(key.len() as int + 1) == value);
}

/// The lines of pairs are read into the section that is open.
proof fn lemma_parse_pairs(
    pairs: Seq<(Seq<char>, Seq<char>)>,
    rest: Seq<Seq<char>>,
    done: Seq<SectionView>,
    section: SectionView,
)
    requires
        forall|i: int| 0 <= i < pairs.len() ==> is_pair_key(#[trigger] pairs[i].0),
    ensures
        parse_lines(pair_lines(pairs) + rest, done, Some(section)) == parse_lines(
            rest,
            done,
            Some(with_pairs(section, pairs)),
        ),
    decreases pairs.len(),
{
    if pairs.len() == 0 {
        assert(pair_lines(pairs) + rest == rest);
        assert(section.pairs + pairs == section.pairs);
    } else {
        let lines = pair_lines(pairs) + rest;
        let later = pairs.drop_first();
        assert(lines[0] == pair_line(pairs[0].0, pairs[0].1));
        assert(lines.drop_first() == pair_lines(later) + rest);
        lemma_classify_pair(pairs[0].0, pairs[0].1);
        assert forall|i: int| 0 <= i < later.len() implies is_pair_key(#[trigger] later[i].0) by {
            assert(later[i] == pairs[i + 1]);
        }
        lemma_parse_pairs(later, rest, done, section.with(pairs[0].0, pairs[0].1));
        assert(section.pairs.push(pairs[0]) + later == section.pairs + pairs);
    }
}

/// Every well-formed section is read: where no section is open, the lines
/// of a section with a proper name and proper keys add that section, with
/// its pairs, to the sections read, and reading goes on after them.
pub proof fn lemma_parse_section(
    name: Seq<char>,
    pairs: Seq<(Seq<char>, Seq<char>)>,
    rest: Seq<Seq<char>>,
    done: Seq<SectionView>,
)
    requires
        is_section_name(name),
        forall|i: int| 0 <= i < pairs.len() ==> is_pair_key(#[trigger] pairs[i].0),
    ensures
        parse_lines(section_lines(name, pairs) + rest, done, None) == parse_lines(
            rest,
            done.push((SectionView { name, pairs })),
            None,
        ),
{
    let open = seq!['['] + name + seq![']'];
    let close = seq!['[', '/'] + name + seq![']'];
    let lines = section_lines(name, pairs) + rest;
    let inner = pair_lines(pairs) + (seq![close] + rest);
    lemma_classify_tags(name);
    assert(lines[0] == open);
    assert(lines.drop_first() == inner);
    lemma_parse_pairs(pairs, seq![close] + rest, done, SectionView::named(name));
    let tail = seq![close] + rest;
    assert(tail[0] == close);
    assert(tail.drop_first() == rest);
    assert(Seq::<(Seq<char>, Seq<char>)>::empty() + pairs == pairs);
}

impl SectionView {
    /// Whether the section can be written down and read again: it has a
    /// proper name and proper keys.
    pub open spec fn well_formed(self) -> bool {
        &&& is_section_name(self.name)
        &&& forall|i: int| 0 <= i < self.pairs.len() ==> is_pair_key(#[trigger] self.pairs[i].0)
    }
}

/// The lines of a report that holds `sections`, one after the other.
pub open spec fn report_lines(sections: Seq<SectionView>) -> Seq<Seq<char>>
    decreases sections.len(),
{
    if sections.len() == 0 {
        Seq::empty()
    } else {
        section_lines(sections[0].name, sections[0].pairs) + report_lines(sections.drop_first())
    }
}

/// The lines of well-formed sections are read as those sections, after
/// the sections read before.
proof fn lemma_parse_sections(sections: Seq<SectionView>, done: Seq<SectionView>)
    requires
        forall|i: int| 0 <= i < sections.len() ==> (#[trigger] sections[i]).well_formed(),
    ensures
        parse_lines(report_lines(sections), done, None) == Ok::<Seq<SectionView>, ProbeFault>(
            done + sections,
        ),
    decreases sections.len(),
{
    if sections.len() == 0 {
        assert(done + sections == done);
    } else {
        let first = sections[0];
        let later = sections.drop_first();
        assert(first.well_formed());
        assert forall|i: int| 0 <= i < later.len() implies (#[trigger] later[i]).well_formed() by {
            assert(later[i] == sections[i + 1]);
        }
        lemma_parse_section(first.name, first.pairs, report_lines(later), done);
        lemma_parse_sections(later, done.push(first));
        assert(done.push(first) + later == done + sections);
    }
}

/// The parser reads every well-formed report: a report made of sections
/// with proper names and proper keys is read as exactly those sections,
/// with their pairs in their order.
pub proof fn lemma_parse_report(sections: Seq<SectionView>)
    requires
        forall|i: int| 0 <= i < sections.len() ==> (#[trigger] sections[i]).well_formed(),
    ensures
        parse_lines(report_lines(sections), Seq::empty(), None) == Ok::<
            Seq<SectionView>,
            ProbeFault,
        >(sections),
{
    lemma_parse_sections(sections, Seq::empty());
    assert(Seq::<SectionView>::empty() + sections == sections);
}

/// The same of the text of such a report, as long as each of its lines can
/// stand as a line of its own.
pub proof fn lemma_parse_report_text(sections: Seq<SectionView>)
    requires
        forall|i: int| 0 <= i < sections.len() ==> (#[trigger] sections[i]).well_formed(),
        forall|i: int|
            0 <= i < report_lines(sections).len() ==> crate::text::is_line(
                #[trigger] report_lines(sections)[i],
            ),
    ensures
        parse_probe(crate::text::join_lines(report_lines(sections))) == Ok::<
            Seq<SectionView>,
            ProbeFault,
        >(sections),
{
    crate::text::lemma_lines_of_joined(report_lines(sections));
    lemma_parse_report(sections);
}

} // verus!
