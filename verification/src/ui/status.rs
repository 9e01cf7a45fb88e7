//! The texts of the status line.
use crate::queue::ShuffleType;
use vstd::prelude::*;
use vstd::string::StringExecFns;

verus! {

/// `String::push`: the character is appended at the end.
pub assume_specification[ String::push ](string: &mut String, ch: char)
    ensures
        final(string)@ == old(string)@.push(ch),
;

/// The character of a digit.
pub open spec fn digit_char(digit: nat) -> char {
    if digit == 0 {
        '0'
    } else if digit == 1 {
        '1'
    } else if digit == 2 {
        '2'
    } else if digit == 3 {
        '3'
    } else if digit == 4 {
        '4'
    } else if digit == 5 {
        '5'
    } else if digit == 6 {
        '6'
    } else if digit == 7 {
        '7'
    } else if digit == 8 {
        '8'
    } else {
        '9'
    }
}

/// A number in decimal digits.
pub open spec fn digits(number: nat) -> Seq<char>
    decreases number,
{
    if number < 10 {
        seq![digit_char(number)]
    } else {
        digits(number / 10).push(digit_char(number % 10))
    }
}

/// A number in decimal digits, two of them at least.
pub open spec fn two_digits(number: nat) -> Seq<char> {
    if number < 10 {
        seq!['0', digit_char(number)]
    } else {
        digits(number)
    }
}

/// A time as minutes and seconds: `m:ss`.
pub open spec fn clock(seconds: u64) -> Seq<char> {
    digits((seconds / 60) as nat).push(':') + two_digits((seconds % 60) as nat)
}

/// How far playback is, and how long the track: `m:ss/m:ss `.
pub open spec fn time_text(played: u64, total: u64) -> Seq<char> {
    (clock(played).push('/') + clock(total)).push(' ')
}

/// The length of a track as minutes and seconds, the minutes counted within
/// the hour: `mm:ss`.
pub open spec fn duration_text(seconds: u64) -> Seq<char> {
    two_digits(((seconds / 60) % 60) as nat).push(':') + two_digits((seconds % 60) as nat)
}

/// What the status line says of the track: its path, a space, and the
/// sample rate; the path is left out where no track is current.
pub open spec fn track_text(track: Option<Seq<char>>, sample_rate: u64) -> Seq<char> {
    match track {
        None => seq![' '] + digits(sample_rate as nat),
        Some(path) => path.push(' ') + digits(sample_rate as nat),
    }
}

/// The mark of a shuffle mode in the status line.
pub open spec fn shuffle_text(mode: ShuffleType) -> Seq<char> {
    match mode {
        ShuffleType::Off => ""@,
        ShuffleType::Shuffled => "SH"@,
    }
}

/// The mark of repeat in the status line.
pub open spec fn repeat_text(repeat: bool) -> Seq<char> {
    if repeat {
        "R"@
    } else {
        ""@
    }
}

fn digit(value: u64) -> (ch: char)
    requires
        value < 10,
    ensures
        ch == digit_char(value as nat),
{
    if value == 0 {
        '0'
    } else if value == 1 {
        '1'
    } else if value == 2 {
        '2'
    } else if value == 3 {
        '3'
    } else if value == 4 {
        '4'
    } else if value == 5 {
        '5'
    } else if value == 6 {
        '6'
    } else if value == 7 {
        '7'
    } else if value == 8 {
        '8'
    } else {
        '9'
    }
}

fn push_digits(text: &mut String, number: u64)
    ensures
        final(text)@ == old(text)@ + digits(number as nat),
    decreases number,
{
    if number >= 10 {
        push_digits(text, number / 10);
    }
    text.push(digit(number % 10));
    assert(final(text)@ =~= old(text)@ + digits(number as nat));
}

fn push_two_digits(text: &mut String, number: u64)
    ensures
        final(text)@ == old(text)@ + two_digits(number as nat),
{
    if number < 10 {
        text.push('0');
        text.push(digit(number));
        assert(final(text)@ =~= old(text)@ + two_digits(number as nat));
    } else {
        push_digits(text, number);
    }
}

fn push_clock(text: &mut String, seconds: u64)
    ensures
        final(text)@ == old(text)@ + clock(seconds),
{
    push_digits(text, seconds / 60);
    text.push(':');
    push_two_digits(text, seconds % 60);
    assert(final(text)@ =~= old(text)@ + clock(seconds));
}

/// How far playback is, and how long the track: `m:ss/m:ss `.
pub fn time_label(played_sec: u64, length_sec: u64) -> (label: String)
    ensures
        label@ == time_text(played_sec, length_sec),
{
    let mut label = String::new();
    push_clock(&mut label, played_sec);
    label.push('/');
    push_clock(&mut label, length_sec);
    label.push(' ');
    assert(label@ =~= time_text(played_sec, length_sec));
    label
}

/// What the status line says of the track: see `track_text`.
pub fn track_label(track: Option<&String>, sample_rate: u64) -> (label: String)
    ensures
        label@ == track_text(
            match track {
                None => None,
                Some(path) => Some(path@),
            },
            sample_rate,
        ),
{
    let mut label = match track {
        None => String::new(),
        Some(path) => String::from_str(path.as_str()),
    };
    label.push(' ');
    push_digits(&mut label, sample_rate);
    proof {
        match track {
            None => {
                assert(label@ =~= seq![' '] + digits(sample_rate as nat));
            },
            Some(path) => {
                assert(label@ =~= path@.push(' ') + digits(sample_rate as nat));
            },
        }
    }
    label
}

/// The mark of a shuffle mode in the status line.
pub fn shuffle_label(mode: ShuffleType) -> (label: &'static str)
    ensures
        label@ == shuffle_text(mode),
{
    match mode {
        ShuffleType::Off => "",
        ShuffleType::Shuffled => "SH",
    }
}

/// The mark of repeat in the status line.
pub fn repeat_label(repeat: bool) -> (label: &'static str)
    ensures
        label@ == repeat_text(repeat),
{
    if repeat {
        "R"
    } else {
        ""
    }
}

/// The length of a track of so many seconds: `mm:ss`.
pub fn duration_label(seconds: u64) -> (label: String)
    ensures
        label@ == duration_text(seconds),
{
    let mut label = String::new();
    push_two_digits(&mut label, (seconds / 60) % 60);
    label.push(':');
    push_two_digits(&mut label, seconds % 60);
    assert(label@ =~= duration_text(seconds));
    label
}

/// A time label is never shorter than `0:00/0:00 `, and the seconds always
/// take two digits.
pub proof fn lemma_clock_shape(seconds: u64)
    ensures
        clock(seconds).len() >= 4,
        clock(seconds)[clock(seconds).len() - 3] == ':',
{
    lemma_digits_len((seconds / 60) as nat);
    lemma_digits_len((seconds % 60) as nat);
}

/// A number below ten has one digit, one from ten on has two at least.
pub proof fn lemma_digits_len(number: nat)
    ensures
        digits(number).len() >= 1,
        number < 10 ==> digits(number).len() == 1,
        10 <= number < 100 ==> digits(number).len() == 2,
    decreases number,
{
    if number >= 10 {
        lemma_digits_len(number / 10);
    }
}

} // verus!
