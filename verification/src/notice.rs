//! Power states, and the status notices that the devices and the facade emit.

use vstd::prelude::*;

verus! {

/// Whether a device is switched on.
#[derive(Clone, Copy, Debug, PartialEq, Eq, Structural)]
pub enum Power {
    Off,
    On,
}

/// The number that closes a notice's line.
#[derive(Clone, Copy, Debug, PartialEq, Eq, Structural)]
pub enum Reading {
    /// A volume level.
    Level(i32),
    /// A frequency, as the bit pattern of a binary64 number.
    FrequencyBits(u64),
}

/// A status notice: one line for the caller's output channel.
#[derive(Debug, PartialEq, Eq)]
pub enum Notice {
    /// The facade starts to tune the radio in.
    TuningIn,
    /// The facade starts to shut the radio down.
    ShuttingDown,
    /// The device of this label was switched on.
    PoweredOn { label: String },
    /// The device of this label was switched off.
    PoweredOff { label: String },
    /// The tuner of this label was tuned to the frequency of these bits.
    FrequencySet { label: String, bits: u64 },
    /// The amplifier of this label was set to this volume.
    VolumeSet { label: String, level: i32 },
}

/// What a [`Notice`] says, with each label as a sequence of characters.
pub enum NoticeView {
    TuningIn,
    ShuttingDown,
    PoweredOn { label: Seq<char> },
    PoweredOff { label: Seq<char> },
    FrequencySet { label: Seq<char>, bits: u64 },
    VolumeSet { label: Seq<char>, level: i32 },
}

impl NoticeView {
    /// The words of the line. A notice without a reading is these words; one
    /// with a reading is these words followed by the number.
    pub open spec fn words(self) -> Seq<char> {
        match self {
            NoticeView::TuningIn => "Tuning in the airwaves..."@,
            NoticeView::ShuttingDown => "Shutting down the radio..."@,
            NoticeView::PoweredOn { label } => label + " on"@,
            NoticeView::PoweredOff { label } => label + " off"@,
            NoticeView::FrequencySet { label, bits } => label + " setting frequency to "@,
            NoticeView::VolumeSet { label, level } => label + " setting volume to "@,
        }
    }

    /// The line as far as it is made of words and whole numbers: the words,
    /// followed by the level in decimal where the notice has one. Of a
    /// notice with a frequency it is the words alone, for the frequency's
    /// digits to follow.
    pub open spec fn line(self) -> Seq<char> {
        match self {
            NoticeView::VolumeSet { label, level } => self.words() + decimal(level as int),
            _ => self.words(),
        }
    }

    /// The number that closes the line, if the line has one.
    pub open spec fn reading(self) -> Option<Reading> {
        match self {
            NoticeView::FrequencySet { label, bits } => Some(Reading::FrequencyBits(bits)),
            NoticeView::VolumeSet { label, level } => Some(Reading::Level(level)),
            _ => None,
        }
    }
}

impl View for Notice {
    type V = NoticeView;

    open spec fn view(&self) -> NoticeView {
        match *self {
            Notice::TuningIn => NoticeView::TuningIn,
            Notice::ShuttingDown => NoticeView::ShuttingDown,
            Notice::PoweredOn { label } => NoticeView::PoweredOn { label: label@ },
            Notice::PoweredOff { label } => NoticeView::PoweredOff { label: label@ },
            Notice::FrequencySet { label, bits } => NoticeView::FrequencySet { label: label@, bits },
            Notice::VolumeSet { label, level } => NoticeView::VolumeSet { label: label@, level },
        }
    }
}

/// The views of a sequence of notices, in the same order.
pub open spec fn notice_views(notices: Seq<Notice>) -> Seq<NoticeView> {
    notices.map_values(|n: Notice| n@)
}

impl Notice {
    /// The words of this notice's line.
    pub fn words(&self) -> (line: String)
        ensures
            line@ == self@.words(),
    {
        match self {
            Notice::TuningIn => String::from_str("Tuning in the airwaves..."),
            Notice::ShuttingDown => String::from_str("Shutting down the radio..."),
            Notice::PoweredOn { label } => label.clone().concat(" on"),
            Notice::PoweredOff { label } => label.clone().concat(" off"),
            Notice::FrequencySet { label, bits } => label.clone().concat(" setting frequency to "),
            Notice::VolumeSet { label, level } => label.clone().concat(" setting volume to "),
        }
    }

    /// This notice's line as far as it is made of words and whole numbers:
    /// the whole line, but for a notice with a frequency, whose digits the
    /// caller puts behind it.
    pub fn line(&self) -> (line: String)
        ensures
            line@ == self@.line(),
    {
        let mut line = self.words();
        match self {
            Notice::VolumeSet { label, level } => {
                let digits = level_text(*level);
                line.append(digits.as_str());
            },
            _ => {},
        }
        line
    }

    /// The number that closes this notice's line, if it has one.
    pub fn reading(&self) -> (reading: Option<Reading>)
        ensures
            reading == self@.reading(),
    {
        match self {
            Notice::FrequencySet { label, bits } => Some(Reading::FrequencyBits(*bits)),
            Notice::VolumeSet { label, level } => Some(Reading::Level(*level)),
            _ => None,
        }
    }
}

/// The character of one decimal digit.
pub open spec fn digit_char(d: nat) -> char
    recommends
        d < 10,
{
    if d == 0 {
        '0'
    } else if d == 1 {
        '1'
    } else if d == 2 {
        '2'
    } else if d == 3 {
        '3'
    } else if d == 4 {
        '4'
    } else if d == 5 {
        '5'
    } else if d == 6 {
        '6'
    } else if d == 7 {
        '7'
    } else if d == 8 {
        '8'
    } else {
        '9'
    }
}

/// The decimal digits of a natural number, the most significant first and
/// without leading zeros; the digits of 0 are "0".
pub open spec fn digits(n: nat) -> Seq<char>
    decreases n,
{
    if n < 10 {
        seq![digit_char(n)]
    } else {
        digits(n / 10).push(digit_char(n % 10))
    }
}

/// An integer in decimal: a minus sign before a negative number, then the
/// digits of its magnitude.
pub open spec fn decimal(i: int) -> Seq<char> {
    if i < 0 {
        seq!['-'] + digits((-i) as nat)
    } else {
        digits(i as nat)
    }
}

/// One decimal digit as a string.
fn digit_str(d: u64) -> (s: &'static str)
    requires
        d < 10,
    ensures
        s@ == seq![digit_char(d as nat)],
{
    proof {
        reveal_strlit("0");
        reveal_strlit("1");
        reveal_strlit("2");
        reveal_strlit("3");
        reveal_strlit("4");
        reveal_strlit("5");
        reveal_strlit("6");
        reveal_strlit("7");
        reveal_strlit("8");
        reveal_strlit("9");
    }
    let s = if d == 0 {
        "0"
    } else if d == 1 {
        "1"
    } else if d == 2 {
        "2"
    } else if d == 3 {
        "3"
    } else if d == 4 {
        "4"
    } else if d == 5 {
        "5"
    } else if d == 6 {
        "6"
    } else if d == 7 {
        "7"
    } else if d == 8 {
        "8"
    } else {
        "9"
    };
    assert(s@ =~= seq![digit_char(d as nat)]);
    s
}

/// Appends the decimal digits of `n` to `out`.
fn push_digits(out: &mut String, n: u64)
    ensures
        final(out)@ == old(out)@ + digits(n as nat),
    decreases n,
{
    if n >= 10 {
        push_digits(out, n / 10);
    }
    out.append(digit_str(n % 10));
    assert(out@ =~= old(out)@ + digits(n as nat));
}

/// A volume level in decimal, as it closes the line of a notice.
pub fn level_text(level: i32) -> (text: String)
    ensures
        text@ == decimal(level as int),
{
    if level < 0 {
        let mut text = String::from_str("-");
        proof {
            reveal_strlit("-");
        }
        let magnitude: u64 = (-(level as i64)) as u64;
        push_digits(&mut text, magnitude);
        assert(text@ =~= decimal(level as int));
        text
    } else {
        let mut text = String::new();
        push_digits(&mut text, level as u64);
        assert(text@ =~= decimal(level as int));
        text
    }
}

} // verus!
