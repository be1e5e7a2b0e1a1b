use vstd::prelude::*;

verus! {

/// A point on the timeline in seconds, kept exact: the quotient of a tick
/// count and the denominator of the time base the ticks are counted in.
#[derive(Debug, Clone, Copy, PartialEq, Eq)]
pub struct Seconds {
    pub ticks: i64,
    pub denominator: i32,
}

impl Seconds {
    /// Whether `self` lies strictly before `other`. Both quotients are
    /// compared by cross multiplication, which is the order of the
    /// quotients as long as both denominators are positive.
    pub open spec fn is_before(self, other: Seconds) -> bool {
        self.ticks * other.denominator < other.ticks * self.denominator
    }
}

/// What the container says of one chapter, as plain values.
#[derive(Debug, Clone, PartialEq, Eq)]
pub struct ChapterEntry {
    pub id: i32,
    pub title: Option<String>,
    pub start: i64,
    pub end: i64,
    pub time_base_denominator: i32,
}

/// The view of a container chapter, for contracts.
pub struct ChapterEntryView {
    pub id: int,
    pub title: Option<Seq<char>>,
    pub start: int,
    pub end: int,
    pub time_base_denominator: int,
}

impl View for ChapterEntry {
    type V = ChapterEntryView;

    open spec fn view(&self) -> ChapterEntryView {
        ChapterEntryView {
            id: self.id as int,
            title: match self.title {
                Some(title) => Some(title@),
                None => None,
            },
            start: self.start as int,
            end: self.end as int,
            time_base_denominator: self.time_base_denominator as int,
        }
    }
}

/// One chapter, ready for extraction.
#[derive(Debug, Clone, PartialEq, Eq)]
pub struct ChapterInfo {
    pub title: String,
    pub start: Seconds,
    pub end: Seconds,
}

/// The view of a chapter record, for contracts.
pub struct ChapterInfoView {
    pub title: Seq<char>,
    pub start: Seconds,
    pub end: Seconds,
}

impl View for ChapterInfo {
    type V = ChapterInfoView;

    open spec fn view(&self) -> ChapterInfoView {
        ChapterInfoView { title: self.title@, start: self.start, end: self.end }
    }
}

/// The decimal digit of a value below ten.
pub open spec fn decimal_digit(value: int) -> char {
    seq!['0', '1', '2', '3', '4', '5', '6', '7', '8', '9'][value]
}

/// The decimal digits of a natural number, without leading zeros.
pub open spec fn decimal_digits(value: nat) -> Seq<char>
    decreases value,
{
    if value < 10 {
        seq![decimal_digit(value as int)]
    } else {
        decimal_digits(value / 10).push(decimal_digit((value % 10) as int))
    }
}

/// A whole number written in decimal, with `-` in front if it is negative.
pub open spec fn decimal_text(value: int) -> Seq<char> {
    if value < 0 {
        seq!['-'] + decimal_digits((-value) as nat)
    } else {
        decimal_digits(value as nat)
    }
}

/// The title of a chapter: the one the container gives, or else the
/// chapter's id in decimal.
pub open spec fn title_of(chapter: ChapterEntryView) -> Seq<char> {
    match chapter.title {
        Some(title) => title,
        None => decimal_text(chapter.id),
    }
}

/// The record of one container chapter: its title, and its bounds as the
/// container's ticks over the denominator of the container's time base.
pub open spec fn chapter_info_of(chapter: ChapterEntry) -> ChapterInfoView {
    ChapterInfoView {
        title: title_of(chapter@),
        start: Seconds { ticks: chapter.start, denominator: chapter.time_base_denominator },
        end: Seconds { ticks: chapter.end, denominator: chapter.time_base_denominator },
    }
}

fn digit_text(value: u32) -> (text: &'static str)
    requires
        value < 10,
    ensures
        text@ == seq![decimal_digit(value as int)],
{
    proof {
        reveal_strlit("0");
        reveal_strlit("1");
        reveal_strlit("2");
        reveal_strlit("3");
        reveal_strlit("4");
        reveal_strlit("5");
        reveal_strlit("6");
        reveal_strlit("7");
        reveal_strlit("8");
        reveal_strlit("9");
    }
    let text = match value {
        0 => "0",
        1 => "1",
        2 => "2",
        3 => "3",
        4 => "4",
        5 => "5",
        6 => "6",
        7 => "7",
        8 => "8",
        _ => "9",
    };
    text
}

fn append_digits(text: &mut String, value: u32)
    ensures
        final(text)@ == old(text)@ + decimal_digits(value as nat),
    decreases value,
{
    if value >= 10 {
        append_digits(text, value / 10);
    }
    text.append(digit_text(value % 10));
}

/// Writes a chapter id in decimal.
pub fn id_label(id: i32) -> (label: String)
    ensures
        label@ == decimal_text(id as int),
{
    let mut label = String::new();
    if id < 0 {
        proof {
            reveal_strlit("-");
        }
        label.append("-");
        let magnitude: i64 = -(id as i64);
        append_digits(&mut label, magnitude as u32);
    } else {
        append_digits(&mut label, id as u32);
    }
    label
}

impl ChapterInfo {
    /// Makes the record of one chapter of the container.
    pub fn new(chapter: &ChapterEntry) -> (info: ChapterInfo)
        ensures
            info@ == chapter_info_of(*chapter),
    {
        let title = match &chapter.title {
            Some(title) => title.clone(),
            None => id_label(chapter.id),
        };
        ChapterInfo {
            title,
            start: Seconds { ticks: chapter.start, denominator: chapter.time_base_denominator },
            end: Seconds { ticks: chapter.end, denominator: chapter.time_base_denominator },
        }
    }
}

/// The catalog of a container: the record of each of its chapters, in the
/// container's order. Nothing is left out, moved or checked.
pub open spec fn catalog_of(chapters: Seq<ChapterEntry>) -> Seq<ChapterInfoView> {
    Seq::new(chapters.len(), |i: int| chapter_info_of(chapters[i]))
}

/// The views of a list of records, in order.
pub open spec fn chapter_views(chapters: Seq<ChapterInfo>) -> Seq<ChapterInfoView> {
    Seq::new(chapters.len(), |i: int| chapters[i]@)
}

/// Lists the chapters of a container as records, one for each and in the
/// container's order.
pub fn get_chapter_infos(chapters: &Vec<ChapterEntry>) -> (infos: Vec<ChapterInfo>)
    ensures
        infos@.len() == chapters@.len(),
        forall|i: int|
            0 <= i < chapters@.len() ==> (#[trigger] infos@[i])@ == chapter_info_of(chapters@[i]),
        chapter_views(infos@) == catalog_of(chapters@),
{
    let mut infos: Vec<ChapterInfo> = Vec::new();
    for i in 0..chapters.len()
        invariant
            infos@.len() == i,
            forall|j: int| 0 <= j < i ==> (#[trigger] infos@[j])@ == chapter_info_of(chapters@[j]),
    {
        infos.push(ChapterInfo::new(&chapters[i]));
    }
    infos
}

/// A number written in decimal is never the empty text.
pub proof fn lemma_decimal_text_nonempty(value: int)
    ensures
        decimal_text(value).len() > 0,
{
    if value >= 0 {
        lemma_decimal_digits_nonempty(value as nat);
    }
}

proof fn lemma_decimal_digits_nonempty(value: nat)
    ensures
        decimal_digits(value).len() > 0,
    decreases value,
{
    if value >= 10 {
        lemma_decimal_digits_nonempty(value / 10);
    }
}

/// A chapter without a title in the container still gets a title that is
/// not empty.
pub proof fn lemma_fallback_title_nonempty(chapter: ChapterEntry)
    requires
        chapter.title is None,
    ensures
        chapter_info_of(chapter).title.len() > 0,
{
    lemma_decimal_text_nonempty(chapter.id as int);
}

/// The catalog has one record per chapter of the container, in the same
/// order, and a chapter that ends after it starts, counted in a time base
/// with a positive denominator, gets a record that ends after it starts.
pub proof fn lemma_catalog_keeps_chapters(chapters: Seq<ChapterEntry>)
    ensures
        catalog_of(chapters).len() == chapters.len(),
        forall|i: int|
            0 <= i < chapters.len() ==> #[trigger] catalog_of(chapters)[i] == chapter_info_of(
                chapters[i],
            ),
        forall|i: int|
            0 <= i < chapters.len() && chapters[i].start < chapters[i].end
                && chapters[i].time_base_denominator > 0 ==> (#[trigger] catalog_of(
                chapters,
            )[i]).start.is_before(catalog_of(chapters)[i].end),
{
    assert forall|i: int|
        0 <= i < chapters.len() && chapters[i].start < chapters[i].end
            && chapters[i].time_base_denominator > 0 implies (#[trigger] catalog_of(
        chapters,
    )[i]).start.is_before(catalog_of(chapters)[i].end) by {
        lemma_later_ticks_are_later(
            chapters[i].start as int,
            chapters[i].end as int,
            chapters[i].time_base_denominator as int,
        );
    }
}

proof fn lemma_later_ticks_are_later(start: int, end: int, denominator: int)
    requires
        start < end,
        denominator > 0,
    ensures
        start * denominator < end * denominator,
{
    assert(start * denominator < end * denominator) by (nonlinear_arith)
        requires
            start < end,
            denominator > 0,
    ;
}

} // verus!
