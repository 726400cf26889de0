//! The message log shown over the level: the latest few events.
use vstd::prelude::*;
use std::collections::VecDeque;
use crate::color::Color;
use crate::status::AppStatus;

verus! {

/// The number of messages the log keeps.
pub const BUFFER_CAPACITY: usize = 5;

/// One message of the log.
#[derive(Debug)]
pub enum LogData {
    LoadSucceeded { name: String },
    LoadFailed { url: String, error: String },
    Entered { name: String, portal_name: Option<String> },
}

/// The last `BUFFER_CAPACITY` messages of a sequence, oldest first.
pub open spec fn latest(s: Seq<LogData>) -> Seq<LogData> {
    if s.len() > BUFFER_CAPACITY {
        s.skip(s.len() - BUFFER_CAPACITY)
    } else {
        s
    }
}

/// The latest messages, oldest first.
pub struct Log {
    entries: VecDeque<LogData>,
}

impl Log {
    #[verifier::type_invariant]
    spec fn bounded(self) -> bool {
        self.entries@.len() <= BUFFER_CAPACITY
    }

    /// An empty log.
    pub fn new() -> (l: Self)
        ensures
            l@ == Seq::<LogData>::empty(),
    {
        Log { entries: VecDeque::new() }
    }

    /// Adds a message, dropping the oldest when the log is full.
    pub fn push(&mut self, data: LogData)
        ensures
            final(self)@ == latest(old(self)@.push(data)),
            final(self)@.len() <= BUFFER_CAPACITY,
    {
        proof {
            use_type_invariant(&*self);
        }
        let mut entries: VecDeque<LogData> = VecDeque::new();
        std::mem::swap(&mut entries, &mut self.entries);
        let ghost before = entries@;
        if entries.len() >= BUFFER_CAPACITY {
            entries.pop_front();
        }
        entries.push_back(data);
        proof {
            let pushed = before.push(data);
            if before.len() >= BUFFER_CAPACITY {
                assert(entries@ =~= pushed.skip(pushed.len() - BUFFER_CAPACITY));
            } else {
                assert(entries@ =~= pushed);
            }
        }
        self.entries = entries;
    }

    /// The messages, oldest first.
    pub fn entries(&self) -> (r: &VecDeque<LogData>)
        ensures
            r@ == self@,
            r@.len() <= BUFFER_CAPACITY,
    {
        proof {
            use_type_invariant(self);
        }
        &self.entries
    }
}

impl View for Log {
    type V = Seq<LogData>;

    closed spec fn view(&self) -> Seq<LogData> {
        self.entries@
    }
}

/// The log shows the latest messages: pushing onto a log that shows the
/// latest of some messages shows the latest of those messages and the new one.
pub proof fn law_log_keeps_latest(pushed: Seq<LogData>, data: LogData)
    ensures
        latest(latest(pushed).push(data)) == latest(pushed.push(data)),
        latest(pushed.push(data)).len() <= BUFFER_CAPACITY,
        latest(pushed.push(data)).last() == data,
{
    let all = pushed.push(data);
    if pushed.len() > BUFFER_CAPACITY {
        let kept = pushed.skip(pushed.len() - BUFFER_CAPACITY);
        assert(kept.push(data).skip(1) =~= all.skip(all.len() - BUFFER_CAPACITY));
    } else if pushed.len() == BUFFER_CAPACITY {
        assert(latest(pushed) == pushed);
    }
}

/// The widest a level's name is drawn, in characters.
pub const MAX_LEVEL_NAME_LEN: usize = 32;
/// The widest a level's URL is drawn, in characters.
pub const MAX_LEVEL_URL_LEN: usize = 28;
/// The widest an error is drawn, in characters.
pub const MAX_ERROR_LEN: usize = 24;
/// The widest a portal's name is drawn, in characters.
pub const MAX_PORTAL_NAME_LEN: usize = 16;

/// One piece of a drawn message: its text, the most characters of it that
/// are drawn (all of them where `None`), and its color.
#[derive(Debug)]
pub struct LogSegment<'a> {
    pub text: &'a str,
    pub max_len: Option<usize>,
    pub color: Color,
}

/// A segment as plain values.
pub open spec fn segment_view(s: LogSegment) -> (Seq<char>, Option<usize>, Color) {
    (s.text@, s.max_len, s.color)
}

pub open spec fn white() -> Color {
    Color { r: 255, g: 255, b: 255, a: 255 }
}

pub open spec fn green() -> Color {
    Color { r: 0, g: 255, b: 0, a: 255 }
}

pub open spec fn red() -> Color {
    Color { r: 255, g: 0, b: 0, a: 255 }
}

pub open spec fn blue() -> Color {
    Color { r: 0, g: 128, b: 255, a: 255 }
}

/// The segments a message is drawn as, left to right: "level: ", the level's
/// name or URL, and a colored status, followed by the error or the portal's
/// name in parentheses where there is one.
pub open spec fn log_line(d: LogData) -> Seq<(Seq<char>, Option<usize>, Color)> {
    match d {
        LogData::LoadSucceeded { name } => seq![
            ("level: "@, None, white()),
            (name@, Some(MAX_LEVEL_NAME_LEN), white()),
            (" "@, None, white()),
            ("[load succeeded]"@, None, green()),
        ],
        LogData::LoadFailed { url, error } => seq![
            ("level: "@, None, white()),
            (url@, Some(MAX_LEVEL_URL_LEN), white()),
            (" "@, None, white()),
            ("[load failed]"@, None, red()),
            (" ("@, None, white()),
            (error@, Some(MAX_ERROR_LEN), white()),
            (")"@, None, white()),
        ],
        LogData::Entered { name, portal_name } => {
            let head = seq![
                ("level: "@, None, white()),
                (name@, Some(MAX_LEVEL_NAME_LEN), white()),
                (" "@, None, white()),
                ("[entered]"@, None, blue()),
            ];
            match portal_name {
                Some(p) => head + seq![
                    (" ("@, None, white()),
                    (p@, Some(MAX_PORTAL_NAME_LEN), white()),
                    (")"@, None, white()),
                ],
                None => head,
            }
        },
    }
}

/// Every message is drawn as "level: " and then the level's name (or URL,
/// for a failure) in white, cut to its width, followed by its status: a
/// successful load in green, a failed one in red with the error after it,
/// and entering a level in blue.
pub proof fn law_log_lines(d: LogData)
    ensures
        log_line(d).len() >= 4,
        log_line(d)[0] == ("level: "@, None::<usize>, white()),
        log_line(d)[1].2 == white(),
        match d {
            LogData::LoadSucceeded { name } => log_line(d)[1] == (name@, Some(MAX_LEVEL_NAME_LEN), white())
                && log_line(d)[3] == ("[load succeeded]"@, None::<usize>, green()),
            LogData::LoadFailed { url, error } => log_line(d)[1] == (url@, Some(MAX_LEVEL_URL_LEN), white())
                && log_line(d)[3] == ("[load failed]"@, None::<usize>, red())
                && log_line(d)[5] == (error@, Some(MAX_ERROR_LEN), white()),
            LogData::Entered { name, portal_name } => log_line(d)[1] == (name@, Some(MAX_LEVEL_NAME_LEN), white())
                && log_line(d)[3] == ("[entered]"@, None::<usize>, blue())
                && (log_line(d).len() == 4 <==> portal_name is None),
        },
        green() == (Color { r: 0, g: 255, b: 0, a: 255 }),
        red() == (Color { r: 255, g: 0, b: 0, a: 255 }),
        white() == (Color { r: 255, g: 255, b: 255, a: 255 }),
{
}

/// The segments of `v` are those of `line`.
pub open spec fn segments_are(v: Seq<LogSegment>, line: Seq<(Seq<char>, Option<usize>, Color)>) -> bool {
    &&& v.len() == line.len()
    &&& forall|i: int| 0 <= i < v.len() ==> segment_view(#[trigger] v[i]) == line[i]
}

fn segment<'a>(text: &'a str, max_len: Option<usize>, color: Color) -> (s: LogSegment<'a>)
    ensures
        segment_view(s) == (text@, max_len, color),
{
    LogSegment { text, max_len, color }
}

impl LogData {
    /// The segments the message is drawn as, left to right.
    pub fn line(&self) -> (r: Vec<LogSegment<'_>>)
        ensures
            segments_are(r@, log_line(*self)),
    {
        let white = Color::new(255, 255, 255, 255);
        let mut r: Vec<LogSegment<'_>> = Vec::new();
        match self {
            LogData::LoadSucceeded { name } => {
                r.push(segment("level: ", None, white));
                r.push(segment(name.as_str(), Some(MAX_LEVEL_NAME_LEN), white));
                r.push(segment(" ", None, white));
                r.push(segment("[load succeeded]", None, Color::new(0, 255, 0, 255)));
            },
            LogData::LoadFailed { url, error } => {
                r.push(segment("level: ", None, white));
                r.push(segment(url.as_str(), Some(MAX_LEVEL_URL_LEN), white));
                r.push(segment(" ", None, white));
                r.push(segment("[load failed]", None, Color::new(255, 0, 0, 255)));
                r.push(segment(" (", None, white));
                r.push(segment(error.as_str(), Some(MAX_ERROR_LEN), white));
                r.push(segment(")", None, white));
            },
            LogData::Entered { name, portal_name } => {
                r.push(segment("level: ", None, white));
                r.push(segment(name.as_str(), Some(MAX_LEVEL_NAME_LEN), white));
                r.push(segment(" ", None, white));
                r.push(segment("[entered]", None, Color::new(0, 128, 255, 255)));
                if let Some(p) = portal_name {
                    r.push(segment(" (", None, white));
                    r.push(segment(p.as_str(), Some(MAX_PORTAL_NAME_LEN), white));
                    r.push(segment(")", None, white));
                }
            },
        }
        proof {
            let line = log_line(*self);
            assert(r@.len() == line.len());
            assert forall|i: int| 0 <= i < r@.len() implies segment_view(#[trigger] r@[i]) == line[i] by {}
        }
        r
    }
}

impl Log {
    /// The messages to draw, oldest first, each as its segments: all of them
    /// while the level is shown, none over the intro or the menus.
    pub fn lines(&self, status: AppStatus) -> (r: Vec<Vec<LogSegment<'_>>>)
        ensures
            status != AppStatus::Simulation ==> r@.len() == 0,
            status == AppStatus::Simulation ==> {
                &&& r@.len() == self@.len()
                &&& forall|i: int| 0 <= i < r@.len() ==> segments_are(#[trigger] r@[i]@, log_line(self@[i]))
            },
    {
        proof {
            use_type_invariant(self);
        }
        let mut r: Vec<Vec<LogSegment<'_>>> = Vec::new();
        if status != AppStatus::Simulation {
            return r;
        }
        let n = self.entries.len();
        let mut i: usize = 0;
        while i < n
            invariant
                n == self@.len(),
                i <= n,
                r@.len() == i,
                forall|j: int| 0 <= j < i ==> segments_are(#[trigger] r@[j]@, log_line(self@[j])),
            decreases n - i,
        {
            r.push(self.entries[i].line());
            i = i + 1;
        }
        r
    }
}

} // verus!
