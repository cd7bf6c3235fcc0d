//! The wire protocol: one text line per message, fields separated by single
//! spaces, a leading numeric code. Codes are direction-specific: outbound
//! `0` is a ping and `1` an RTT report; inbound `0` is a pong and `1` a key
//! event sample.

use crate::err::{ErrModel, MessageError};
use crate::text::{
    dec_chars, digits_part, is_digit_char, is_number_token, split_spec, split_str, str_eq, token_val,
    u128_to_string, parse_bounded,
};
use vstd::prelude::*;

verus! {

/// The codes of outbound messages. The two directions share the numerals 0
/// and 1, but each numeral means something else by direction.
pub enum SendCode {
    Ping,
    Rtt,
}

/// The codes of inbound messages: the same numerals as the outbound codes,
/// read the other way.
pub enum ReceiveCode {
    Pong,
    Data,
}

/// The kind of a key event.
#[derive(Clone, Copy, Debug, PartialEq, Eq, Structural)]
pub enum EventTyp {
    KeyDown,
    KeyUp,
}

/// How an event kind is written on the wire and in output rows.
pub open spec fn typ_str(t: EventTyp) -> Seq<char> {
    match t {
        EventTyp::KeyDown => "keydown"@,
        EventTyp::KeyUp => "keyup"@,
    }
}

impl EventTyp {
    pub fn as_str(self) -> (r: &'static str)
        ensures
            r@ == typ_str(self),
    {
        match self {
            EventTyp::KeyDown => "keydown",
            EventTyp::KeyUp => "keyup",
        }
    }
}

/// A protocol message of either direction.
pub enum TimerMessage {
    /// Outbound latency probe.
    Ping { i: u32 },
    /// Inbound reply to a probe.
    Pong { i: u32 },
    /// Outbound report of a measured round-trip time.
    Rtt { rtt: u128 },
    /// Inbound key event sample.
    Data { key: String, key_code: u16, typ: EventTyp },
}

/// The mathematical shape of a message, with the key as a character
/// sequence.
pub ghost enum MessageModel {
    Ping { i: u32 },
    Pong { i: u32 },
    Rtt { rtt: u128 },
    Data { key: Seq<char>, key_code: u16, typ: EventTyp },
}

impl View for TimerMessage {
    type V = MessageModel;

    open spec fn view(&self) -> MessageModel {
        match self {
            TimerMessage::Ping { i } => MessageModel::Ping { i: *i },
            TimerMessage::Pong { i } => MessageModel::Pong { i: *i },
            TimerMessage::Rtt { rtt } => MessageModel::Rtt { rtt: *rtt },
            TimerMessage::Data { key, key_code, typ } => MessageModel::Data {
                key: key@,
                key_code: *key_code,
                typ: *typ,
            },
        }
    }
}

/// What an inbound line means, given its space-separated fields. The first
/// field selects the inbound code; a pong carries exactly one unsigned
/// 32-bit counter; a sample carries a key token, an unsigned 16-bit key
/// code, and an event kind, with any later fields ignored.
pub open spec fn parse_tokens_spec(toks: Seq<Seq<char>>) -> Result<MessageModel, ErrModel>
    recommends
        toks.len() >= 1,
{
    if toks[0] == "0"@ {
        if toks.len() < 2 {
            Err(ErrModel::MoreDataExpected("ping counter"@))
        } else if !(is_number_token(toks[1]) && token_val(toks[1]) <= u32::MAX) {
            Err(ErrModel::CounterParseError)
        } else if toks.len() > 2 {
            Err(ErrModel::NoMoreDataExpected)
        } else {
            Ok(MessageModel::Pong { i: token_val(toks[1]) as u32 })
        }
    } else if toks[0] == "1"@ {
        if toks.len() < 2 {
            Err(ErrModel::MoreDataExpected("key"@))
        } else if toks.len() < 3 {
            Err(ErrModel::MoreDataExpected("ping counter"@))
        } else if !(is_number_token(toks[2]) && token_val(toks[2]) <= u16::MAX) {
            Err(ErrModel::KeyCodeParseError)
        } else if toks.len() < 4 {
            Err(ErrModel::InvalidTyp)
        } else if toks[3] == "keyup"@ {
            Ok(MessageModel::Data {
                key: toks[1],
                key_code: token_val(toks[2]) as u16,
                typ: EventTyp::KeyUp,
            })
        } else if toks[3] == "keydown"@ {
            Ok(MessageModel::Data {
                key: toks[1],
                key_code: token_val(toks[2]) as u16,
                typ: EventTyp::KeyDown,
            })
        } else {
            Err(ErrModel::InvalidTyp)
        }
    } else {
        Err(ErrModel::InvalidCode)
    }
}

/// What an inbound line means: the empty line is rejected outright, any
/// other line by its fields.
pub open spec fn parse_spec(s: Seq<char>) -> Result<MessageModel, ErrModel> {
    if s.len() == 0 {
        Err(ErrModel::MoreDataExpected("message"@))
    } else {
        parse_tokens_spec(split_spec(s))
    }
}

/// How a message is written as a line: the code, then the fields, single
/// spaces between.
pub open spec fn serial_spec(m: MessageModel) -> Seq<char> {
    match m {
        MessageModel::Ping { i } => "0 "@ + dec_chars(i as nat),
        MessageModel::Pong { i } => "0 "@ + dec_chars(i as nat),
        MessageModel::Rtt { rtt } => "1 "@ + dec_chars(rtt as nat),
        MessageModel::Data { key, key_code, typ } => "1 "@ + key + " "@ + dec_chars(
            key_code as nat,
        ) + " "@ + typ_str(typ),
    }
}

/// The fields of a serialized sample message are exactly its tokens.
proof fn lemma_serial_data_tokens(key: Seq<char>, key_code: u16, typ: EventTyp)
    requires
        forall|i: int| 0 <= i < key.len() ==> key[i] != ' ',
    ensures
        split_spec(serial_spec(MessageModel::Data { key, key_code, typ })) == seq![
            seq!['1'],
            key,
            dec_chars(key_code as nat),
            typ_str(typ),
        ],
        serial_spec(MessageModel::Data { key, key_code, typ }).len() > 0,
{
    reveal_strlit("1 ");
    reveal_strlit(" ");
    reveal_strlit("keyup");
    reveal_strlit("keydown");
    let dec = dec_chars(key_code as nat);
    let ts = typ_str(typ);
    let s = serial_spec(MessageModel::Data { key, key_code, typ });
    crate::text::lemma_dec_chars(key_code as nat);
    crate::text::lemma_digits_no_space(dec);
    assert forall|i: int| 0 <= i < ts.len() implies ts[i] != ' ' by {
        match typ {
            EventTyp::KeyUp => {
                assert("keyup"@[0] == 'k' && "keyup"@[1] == 'e' && "keyup"@[2] == 'y'
                    && "keyup"@[3] == 'u' && "keyup"@[4] == 'p');
            },
            EventTyp::KeyDown => {
                assert("keydown"@[0] == 'k' && "keydown"@[1] == 'e' && "keydown"@[2] == 'y'
                    && "keydown"@[3] == 'd' && "keydown"@[4] == 'o' && "keydown"@[5] == 'w'
                    && "keydown"@[6] == 'n');
            },
        }
    }
    let tail2 = dec + seq![' '] + ts;
    let tail1 = key + seq![' '] + tail2;
    assert(s =~= seq!['1'] + seq![' '] + tail1);
    crate::text::lemma_split_sep(seq!['1'], tail1);
    crate::text::lemma_split_sep(key, tail2);
    crate::text::lemma_split_sep(dec, ts);
    crate::text::lemma_split_no_space(ts);
    assert(split_spec(s) =~~= seq![seq!['1'], key, dec, ts]);
}

/// Law: parsing a serialized sample message reproduces its fields exactly.
/// The protocol is direction-asymmetric, so this is the only round trip the
/// codes allow: an outbound probe's code means a pong inbound. The one
/// premise is the protocol's own: a key token cannot contain a space.
pub proof fn lemma_data_round_trip(key: Seq<char>, key_code: u16, typ: EventTyp)
    requires
        forall|i: int| 0 <= i < key.len() ==> key[i] != ' ',
    ensures
        parse_spec(serial_spec(MessageModel::Data { key, key_code, typ })) == Ok::<
            MessageModel,
            ErrModel,
        >(MessageModel::Data { key, key_code, typ }),
{
    reveal_strlit("1");
    reveal_strlit("0");
    reveal_strlit("keyup");
    reveal_strlit("keydown");
    lemma_serial_data_tokens(key, key_code, typ);
    let dec = dec_chars(key_code as nat);
    let ts = typ_str(typ);
    let s = serial_spec(MessageModel::Data { key, key_code, typ });
    let toks = split_spec(s);
    crate::text::lemma_dec_chars(key_code as nat);
    assert(toks[0] == "1"@) by {
        assert(toks[0] =~= "1"@);
    }
    assert(toks[0] != "0"@) by {
        assert("0"@[0] == '0' && "1"@[0] == '1');
    }
    assert(digits_part(dec) == dec) by {
        assert(is_digit_char(dec[0]));
    }
    assert(is_number_token(dec) && token_val(dec) == key_code);
    match typ {
        EventTyp::KeyUp => {
            assert(toks[3] == "keyup"@);
        },
        EventTyp::KeyDown => {
            assert(toks[3] != "keyup"@) by {
                assert("keydown"@.len() != "keyup"@.len());
            }
            assert(toks[3] == "keydown"@);
        },
    }
}

impl TimerMessage {
    /// Parse an inbound line.
    pub fn parse(value: &str) -> (r: Result<TimerMessage, MessageError>)
        ensures
            (match r {
                Ok(m) => parse_spec(value@) == Ok::<MessageModel, ErrModel>(m@),
                Err(e) => parse_spec(value@) == Err::<MessageModel, ErrModel>(e@),
            }),
    {
        if value.unicode_len() == 0 {
            return Err(MessageError::MoreDataExpected("message"));
        }
        let toks = split_str(value);
        proof {
            assert(toks@[0].deep_view() == split_spec(value@)[0]);
        }
        let code = &toks[0];
        if str_eq(code.as_str(), "0") {
            if toks.len() < 2 {
                return Err(MessageError::MoreDataExpected("ping counter"));
            }
            proof {
                assert(toks@[1].deep_view() == split_spec(value@)[1]);
            }
            let i = match parse_bounded(toks[1].as_str(), 0xffff_ffff) {
                Some(v) => v,
                None => {
                    return Err(MessageError::CounterParseError);
                },
            };
            if toks.len() > 2 {
                return Err(MessageError::NoMoreDataExpected);
            }
            Ok(TimerMessage::Pong { i: i as u32 })
        } else if str_eq(code.as_str(), "1") {
            if toks.len() < 2 {
                return Err(MessageError::MoreDataExpected("key"));
            }
            if toks.len() < 3 {
                return Err(MessageError::MoreDataExpected("ping counter"));
            }
            proof {
                assert(toks@[1].deep_view() == split_spec(value@)[1]);
                assert(toks@[2].deep_view() == split_spec(value@)[2]);
            }
            let key_code = match parse_bounded(toks[2].as_str(), 0xffff) {
                Some(v) => v,
                None => {
                    return Err(MessageError::KeyCodeParseError);
                },
            };
            if toks.len() < 4 {
                return Err(MessageError::InvalidTyp);
            }
            proof {
                assert(toks@[3].deep_view() == split_spec(value@)[3]);
            }
            let typ = if str_eq(toks[3].as_str(), "keyup") {
                EventTyp::KeyUp
            } else if str_eq(toks[3].as_str(), "keydown") {
                EventTyp::KeyDown
            } else {
                return Err(MessageError::InvalidTyp);
            };
            let key = toks[1].clone();
            Ok(TimerMessage::Data { key, key_code: key_code as u16, typ })
        } else {
            Err(MessageError::InvalidCode)
        }
    }

    /// Write a message as a line.
    pub fn as_string(&self) -> (r: String)
        ensures
            r@ == serial_spec(self@),
    {
        match self {
            TimerMessage::Ping { i } => {
                let mut out = "0 ".to_owned();
                let num = u128_to_string(*i as u128);
                out.append(num.as_str());
                out
            },
            TimerMessage::Pong { i } => {
                let mut out = "0 ".to_owned();
                let num = u128_to_string(*i as u128);
                out.append(num.as_str());
                out
            },
            TimerMessage::Rtt { rtt } => {
                let mut out = "1 ".to_owned();
                let num = u128_to_string(*rtt);
                out.append(num.as_str());
                out
            },
            TimerMessage::Data { key, key_code, typ } => {
                let mut out = "1 ".to_owned();
                out.append(key.as_str());
                out.append(" ");
                let num = u128_to_string(*key_code as u128);
                out.append(num.as_str());
                out.append(" ");
                out.append(typ.as_str());
                out
            },
        }
    }
}

} // verus!
