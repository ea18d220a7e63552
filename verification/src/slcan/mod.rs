//! SLCAN messages and frames.
//!
//! A frame is an ASCII line of the form `<type> <id> <dlc> <data>`, where the
//! type byte is `t`/`r` (11-bit data/remote frame), `T`/`R` (29-bit data/remote
//! frame), or one of the adapter commands `O` (open) and `C` (close).
//! Baud-rate commands `S0`..`S8` are built by [`SlCanFrame::baudrate`].

pub mod codec;

pub use codec::SlCanCodec;
use vstd::prelude::*;

verus! {

broadcast use vstd::string::group_string_axioms;

/// Byte the device sends to acknowledge a command; it also ends every frame.
pub const SLCAN_ACK: u8 = 0x0D;

/// Byte the device sends to refuse a command.
pub const SLCAN_NACK: u8 = 0x07;

/// Declares `core::str::Utf8Error`, the error of `core::str::from_utf8`, which
/// [`SlCanError::Utf8Error`] carries; nothing is claimed of its contents.
#[verifier::external_type_specification]
#[verifier::external_body]
pub struct ExUtf8Error(core::str::Utf8Error);

/// Declares `std::io::Error`, which [`SlCanError::IoError`] carries for
/// stream errors of the device; nothing is claimed of its contents.
#[verifier::external_type_specification]
#[verifier::external_body]
pub struct ExIoError(std::io::Error);

/// The characters that may open a frame handed to [`SlCanFrame::try_create`].
pub open spec fn is_start_of_frame(c: char) -> bool {
    c == 'r' || c == 'R' || c == 't' || c == 'T' || c == 'O' || c == 'C'
}

/// The first character of every frame the library builds: a start-of-frame
/// character, or the `S` of a baud-rate command.
pub open spec fn is_frame_lead(c: char) -> bool {
    is_start_of_frame(c) || c == 'S'
}

/// Well-formed frame text: non-empty and led by a frame lead character.
pub open spec fn is_frame_text(s: Seq<char>) -> bool {
    s.len() > 0 && is_frame_lead(s[0])
}

/// Received SLCAN messages: an acknowledgement byte, a refusal byte, or a
/// data/remote frame.
#[derive(Clone, Debug)]
pub enum SlCanMessage {
    /// Received an ACK byte in response to a frame
    Ack,
    /// Received a NACK byte in response to a frame
    Nack,
    /// An SLCAN frame
    Frame(SlCanFrame),
}

/// Mathematical model of a message: frames are taken as their text.
pub enum MessageView {
    Ack,
    Nack,
    Frame(Seq<char>),
}

impl View for SlCanMessage {
    type V = MessageView;

    open spec fn view(&self) -> MessageView {
        match self {
            SlCanMessage::Ack => MessageView::Ack,
            SlCanMessage::Nack => MessageView::Nack,
            SlCanMessage::Frame(f) => MessageView::Frame(f@),
        }
    }
}

/// A newtype wrapper for SLCAN frames; its text is always well-formed.
#[derive(Debug)]
pub struct SlCanFrame(String);

impl Clone for SlCanFrame {
    fn clone(&self) -> (copy: Self)
        ensures
            copy@ == self@,
    {
        proof {
            use_type_invariant(self);
        }
        SlCanFrame(self.0.clone())
    }
}

impl View for SlCanFrame {
    type V = Seq<char>;

    closed spec fn view(&self) -> Seq<char> {
        self.0@
    }
}

/// Errors of the SLCAN codec.
#[derive(Debug)]
pub enum SlCanError {
    /// The device refused the command
    Nack,
    /// The text does not start with a start-of-frame character
    BadSof(u8),
    /// The text is empty
    EmptyMessage,
    /// The received bytes are not UTF-8
    Utf8Error(core::str::Utf8Error),
    /// An input/output error of the serial device
    IoError(std::io::Error),
    /// The rate is not one of the SLCAN baud rates
    InvalidBaudrate(u32),
    /// The message is an acknowledgement, not a data frame
    NotADataFrame,
}

/// What [`SlCanFrame::try_create`] makes of a text: the frame's text, or the error.
pub open spec fn spec_try_create(s: Seq<char>) -> Result<Seq<char>, SlCanError> {
    if s.len() == 0 {
        Err(SlCanError::EmptyMessage)
    } else if is_start_of_frame(s[0]) {
        Ok(s)
    } else {
        Err(SlCanError::BadSof(s[0] as u8))
    }
}

/// The digit of the `S` command that selects a CAN bit rate, for the rates
/// that SLCAN adapters offer.
pub open spec fn baudrate_digit(rate: u32) -> Option<char> {
    if rate == 10000 {
        Some('0')
    } else if rate == 20000 {
        Some('1')
    } else if rate == 50000 {
        Some('2')
    } else if rate == 100000 {
        Some('3')
    } else if rate == 125000 {
        Some('4')
    } else if rate == 250000 {
        Some('5')
    } else if rate == 500000 {
        Some('6')
    } else if rate == 800000 {
        Some('7')
    } else if rate == 1000000 {
        Some('8')
    } else {
        None
    }
}

/// What [`SlCanFrame::baudrate`] makes of a rate: the command text, or the error.
pub open spec fn spec_baudrate(rate: u32) -> Result<Seq<char>, SlCanError> {
    match baudrate_digit(rate) {
        Some(d) => Ok(seq!['S', d]),
        None => Err(SlCanError::InvalidBaudrate(rate)),
    }
}

/// A frame result, with the frame taken as its text.
pub open spec fn frame_result_view(r: Result<SlCanFrame, SlCanError>) -> Result<Seq<char>, SlCanError> {
    match r {
        Ok(f) => Ok(f@),
        Err(e) => Err(e),
    }
}

impl SlCanFrame {
    #[verifier::type_invariant]
    spec fn well_formed(self) -> bool {
        is_frame_text(self.0@)
    }

    /// Checks a text and wraps it as a frame.
    ///
    /// The text must not start with a character wider than one byte: its
    /// first byte is taken as a string of its own.
    pub fn try_create(value: &str) -> (res: Result<Self, SlCanError>)
        requires
            value@.len() > 0 ==> value@[0] <= '\u{7f}',
        ensures
            frame_result_view(res) == spec_try_create(value@),
    {
        if value.is_empty() {
            return Err(SlCanError::EmptyMessage);
        }
        let c = value.get_char(0);
        if c == 'r' || c == 'R' || c == 't' || c == 'T' || c == 'O' || c == 'C' {
            Ok(SlCanFrame(value.to_string()))
        } else {
            Err(SlCanError::BadSof(c as u8))
        }
    }

    /// The frame's text as bytes (its UTF-8 encoding).
    pub fn as_bytes(&self) -> (bytes: &[u8])
        ensures
            bytes@ == vstd::utf8::encode_utf8(self@),
            is_frame_text(self@),
    {
        proof {
            use_type_invariant(self);
        }
        self.0.as_str().as_bytes()
    }

    /// The command that opens the CAN channel of the adapter: `O`.
    pub fn open() -> (frame: Self)
        ensures
            frame@ == seq!['O'],
    {
        proof {
            reveal_strlit("O");
        }
        Self("O".to_string())
    }

    /// The command that closes the CAN channel of the adapter: `C`.
    pub fn close() -> (frame: Self)
        ensures
            frame@ == seq!['C'],
    {
        proof {
            reveal_strlit("C");
        }
        Self("C".to_string())
    }

    /// The command that sets the CAN bit rate: `S0` (10 kbit/s) up to `S8`
    /// (1 Mbit/s); any other rate is refused.
    pub fn baudrate(rate: u32) -> (res: Result<Self, SlCanError>)
        ensures
            frame_result_view(res) == spec_baudrate(rate),
    {
        let text: &str = match rate {
            10000 => {
                proof {
                    reveal_strlit("S0");
                    assert("S0"@ =~= seq!['S', '0']);
                }
                "S0"
            },
            20000 => {
                proof {
                    reveal_strlit("S1");
                    assert("S1"@ =~= seq!['S', '1']);
                }
                "S1"
            },
            50000 => {
                proof {
                    reveal_strlit("S2");
                    assert("S2"@ =~= seq!['S', '2']);
                }
                "S2"
            },
            100000 => {
                proof {
                    reveal_strlit("S3");
                    assert("S3"@ =~= seq!['S', '3']);
                }
                "S3"
            },
            125000 => {
                proof {
                    reveal_strlit("S4");
                    assert("S4"@ =~= seq!['S', '4']);
                }
                "S4"
            },
            250000 => {
                proof {
                    reveal_strlit("S5");
                    assert("S5"@ =~= seq!['S', '5']);
                }
                "S5"
            },
            500000 => {
                proof {
                    reveal_strlit("S6");
                    assert("S6"@ =~= seq!['S', '6']);
                }
                "S6"
            },
            800000 => {
                proof {
                    reveal_strlit("S7");
                    assert("S7"@ =~= seq!['S', '7']);
                }
                "S7"
            },
            1000000 => {
                proof {
                    reveal_strlit("S8");
                    assert("S8"@ =~= seq!['S', '8']);
                }
                "S8"
            },
            baud => return Err(SlCanError::InvalidBaudrate(baud)),
        };
        Ok(Self(text.to_string()))
    }
}

/// The frame text that a message carries, if it is a data frame.
pub open spec fn spec_data_frame(m: MessageView) -> Result<Seq<char>, SlCanError> {
    match m {
        MessageView::Frame(t) => Ok(t),
        _ => Err(SlCanError::NotADataFrame),
    }
}

/// A data frame is taken out of its message; acknowledgements are refused.
impl TryFrom<SlCanMessage> for SlCanFrame {
    type Error = SlCanError;

    fn try_from(other: SlCanMessage) -> (res: Result<Self, Self::Error>)
        ensures
            frame_result_view(res) == spec_data_frame(other@),
    {
        if let SlCanMessage::Frame(frame) = other {
            Ok(frame)
        } else {
            Err(SlCanError::NotADataFrame)
        }
    }
}

impl vstd::std_specs::convert::TryFromSpecImpl<SlCanMessage> for SlCanFrame {
    open spec fn obeys_try_from_spec() -> bool {
        true
    }

    open spec fn try_from_spec(v: SlCanMessage) -> Result<Self, SlCanError> {
        match v {
            SlCanMessage::Frame(frame) => Ok(frame),
            _ => Err(SlCanError::NotADataFrame),
        }
    }
}

/// A text that opens with `r`, `R`, `t`, `T`, `O` or `C` becomes a frame
/// whose text is the whole input, whatever its length or last character;
/// no accepted frame has any other text. Empty text and any other first
/// character are refused with the matching error.
pub proof fn law_try_create_keeps_text(s: Seq<char>)
    ensures
        spec_try_create(s) matches Ok(t) ==> t == s,
        s.len() > 0 && (s[0] == 'r' || s[0] == 'R' || s[0] == 't' || s[0] == 'T' || s[0] == 'O'
            || s[0] == 'C') ==> spec_try_create(s) is Ok,
        s.len() == 0 ==> spec_try_create(s) == Err::<Seq<char>, SlCanError>(SlCanError::EmptyMessage),
        s.len() > 0 && !(s[0] == 'r' || s[0] == 'R' || s[0] == 't' || s[0] == 'T' || s[0] == 'O'
            || s[0] == 'C') ==> spec_try_create(s) == Err::<Seq<char>, SlCanError>(
            SlCanError::BadSof(s[0] as u8),
        ),
{
}

/// A baud-rate command exists for exactly nine rates; every other rate is
/// refused with an error that carries it. Each command is `S` followed by
/// a digit from `0` to `8`.
pub proof fn law_baudrate_rates(rate: u32)
    ensures
        spec_baudrate(rate) is Ok <==> (rate == 10000 || rate == 20000 || rate == 50000 || rate
            == 100000 || rate == 125000 || rate == 250000 || rate == 500000 || rate == 800000
            || rate == 1000000),
        spec_baudrate(rate) is Err ==> spec_baudrate(rate) == Err::<Seq<char>, SlCanError>(
            SlCanError::InvalidBaudrate(rate),
        ),
        spec_baudrate(rate) matches Ok(t) ==> t.len() == 2 && t[0] == 'S' && '0' <= t[1] <= '8',
{
}

/// A faster rate gets a strictly larger digit, so distinct rates give
/// distinct commands; with the nine rates and nine digits of
/// [`law_baudrate_rates`], the rates map in order onto `S0`..`S8`.
pub proof fn law_baudrate_ordered(slower: u32, faster: u32)
    requires
        slower < faster,
        spec_baudrate(slower) is Ok,
        spec_baudrate(faster) is Ok,
    ensures
        spec_baudrate(slower)->Ok_0[1] < spec_baudrate(faster)->Ok_0[1],
{
}

} // verus!
