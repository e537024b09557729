//! Account timing: when an account's balance becomes available, and its
//! hash-oracle input.

use vstd::prelude::*;
use crate::decimal::{parse_decimal, parse_decimal_spec, ParseError};
use crate::document::{doc_string, string_field, string_fields};
use crate::numbers::{Amount, BlockTime};
use crate::roinput::{Atom, ChunkedROInput};

verus! {

/// Payload of the timed variant: a vesting schedule.
#[derive(Clone, Copy, Debug, PartialEq, Eq, Structural)]
pub struct TimedData {
    /// Balance that must stay in the account at the start.
    pub initial_minimum_balance: Amount,
    /// Time at which the cliff amount is released.
    pub cliff_time: BlockTime,
    /// Amount released at the cliff.
    pub cliff_amount: Amount,
    /// Length of each vesting period after the cliff.
    pub vesting_period: BlockTime,
    /// Amount released at the end of each vesting period.
    pub vesting_increment: Amount,
}

/// Timing of an account: whether its balance is subject to vesting.
#[derive(Clone, Copy, Debug, PartialEq, Eq, Structural)]
pub enum Timing {
    /// The whole balance is available.
    Untimed,
    /// The balance vests as the schedule says.
    Timed(TimedData),
}

/// A time scalar as it enters the hash: truncated to its low 32 bits.
pub open spec fn time_atom(t: BlockTime) -> Atom {
    Atom::Packed { value: t.0 % 0x1_0000_0000, bits: 32 }
}

/// The low 32 bits of `x`.
fn low_u32(x: u64) -> (r: u64)
    ensures
        r == x % 0x1_0000_0000,
{
    let r = x as u32 as u64;
    assert(r == x % 0x1_0000_0000) by (bit_vector)
        requires
            r == x as u32 as u64,
    ;
    r
}

/// The text of an optional string.
pub open spec fn text_of(o: Option<String>) -> Option<Seq<char>> {
    match o {
        Some(s) => Some(s@),
        None => None,
    }
}

/// One numeric field of a document: its text read as a decimal, an absent
/// field reading as the empty text.
pub open spec fn field_value(o: Option<Seq<char>>) -> Result<u64, ParseError> {
    match o {
        Some(s) => parse_decimal_spec(s),
        None => Err(ParseError::Empty),
    }
}

impl TimedData {
    /// The canonical default: everything zero but a vesting period of one.
    pub open spec fn spec_default() -> TimedData {
        TimedData {
            initial_minimum_balance: Amount(0),
            cliff_time: BlockTime(0),
            cliff_amount: Amount(0),
            vesting_period: BlockTime(1),
            vesting_increment: Amount(0),
        }
    }

    /// The five atoms of a schedule, in their fixed order.
    pub open spec fn encoding(self) -> Seq<Atom> {
        seq![
            Atom::Chunk(self.initial_minimum_balance.0),
            time_atom(self.cliff_time),
            Atom::Chunk(self.cliff_amount.0),
            time_atom(self.vesting_period),
            Atom::Chunk(self.vesting_increment.0),
        ]
    }

    /// A schedule from the texts of its five fields, read in field order; the
    /// first field that does not read gives the error.
    pub open spec fn from_texts(
        initial_minimum_balance: Option<Seq<char>>,
        cliff_time: Option<Seq<char>>,
        cliff_amount: Option<Seq<char>>,
        vesting_period: Option<Seq<char>>,
        vesting_increment: Option<Seq<char>>,
    ) -> Result<TimedData, ParseError> {
        match field_value(initial_minimum_balance) {
            Err(e) => Err(e),
            Ok(a) => match field_value(cliff_time) {
                Err(e) => Err(e),
                Ok(b) => match field_value(cliff_amount) {
                    Err(e) => Err(e),
                    Ok(c) => match field_value(vesting_period) {
                        Err(e) => Err(e),
                        Ok(d) => match field_value(vesting_increment) {
                            Err(e) => Err(e),
                            Ok(e) => Ok(
                                TimedData {
                                    initial_minimum_balance: Amount(a),
                                    cliff_time: BlockTime(b),
                                    cliff_amount: Amount(c),
                                    vesting_period: BlockTime(d),
                                    vesting_increment: Amount(e),
                                },
                            ),
                        },
                    },
                },
            },
        }
    }

    /// A schedule read from the string fields of a document.
    pub open spec fn from_doc(doc: serde_json::Value) -> Result<TimedData, ParseError> {
        TimedData::from_texts(
            doc_string(doc, "initialMinimumBalance"@),
            doc_string(doc, "cliffTime"@),
            doc_string(doc, "cliffAmount"@),
            doc_string(doc, "vestingPeriod"@),
            doc_string(doc, "vestingIncrement"@),
        )
    }

    /// Hash-oracle input of the schedule: exactly five atoms, full scalars for
    /// the amounts and 32-bit packed values for the two times.
    pub fn to_chunked_roinput(&self) -> (r: ChunkedROInput)
        ensures
            r@ == self.encoding(),
            r@.len() == 5,
    {
        let r = ChunkedROInput::new()
            .append_chunk(self.initial_minimum_balance.0)
            .append_packed(low_u32(self.cliff_time.0), 32)
            .append_chunk(self.cliff_amount.0)
            .append_packed(low_u32(self.vesting_period.0), 32)
            .append_chunk(self.vesting_increment.0);
        assert(r@ =~= self.encoding());
        r
    }

    /// A schedule from the texts of its five fields (`None` for an absent one).
    pub fn from_strs(
        initial_minimum_balance: Option<String>,
        cliff_time: Option<String>,
        cliff_amount: Option<String>,
        vesting_period: Option<String>,
        vesting_increment: Option<String>,
    ) -> (r: Result<TimedData, ParseError>)
        ensures
            r == TimedData::from_texts(
                text_of(initial_minimum_balance),
                text_of(cliff_time),
                text_of(cliff_amount),
                text_of(vesting_period),
                text_of(vesting_increment),
            ),
    {
        let a = match read_field(initial_minimum_balance) {
            Ok(v) => v,
            Err(e) => return Err(e),
        };
        let b = match read_field(cliff_time) {
            Ok(v) => v,
            Err(e) => return Err(e),
        };
        let c = match read_field(cliff_amount) {
            Ok(v) => v,
            Err(e) => return Err(e),
        };
        let d = match read_field(vesting_period) {
            Ok(v) => v,
            Err(e) => return Err(e),
        };
        let e = match read_field(vesting_increment) {
            Ok(v) => v,
            Err(e) => return Err(e),
        };
        Ok(
            TimedData {
                initial_minimum_balance: Amount(a),
                cliff_time: BlockTime(b),
                cliff_amount: Amount(c),
                vesting_period: BlockTime(d),
                vesting_increment: Amount(e),
            },
        )
    }

    /// A schedule from a document whose five fields hold decimal strings; any
    /// field absent, not a string, or not a decimal gives an error.
    pub fn from_graphql_json(json: &serde_json::Value) -> (r: Result<TimedData, ParseError>)
        ensures
            r == TimedData::from_doc(*json),
    {
        let a = string_field(json, "initialMinimumBalance");
        let b = string_field(json, "cliffTime");
        let c = string_field(json, "cliffAmount");
        let d = string_field(json, "vestingPeriod");
        let e = string_field(json, "vestingIncrement");
        TimedData::from_strs(a, b, c, d, e)
    }
}

/// Reads one numeric field.
fn read_field(o: Option<String>) -> (r: Result<u64, ParseError>)
    ensures
        r == field_value(text_of(o)),
{
    match o {
        Some(s) => parse_decimal(s.as_str()),
        None => Err(ParseError::Empty),
    }
}

impl Default for TimedData {
    /// The canonical default schedule; its vesting period is never zero.
    fn default() -> (r: TimedData)
        ensures
            r == TimedData::spec_default(),
            r.vesting_period.0 != 0,
    {
        TimedData {
            initial_minimum_balance: Amount(0),
            cliff_time: BlockTime(0),
            cliff_amount: Amount(0),
            vesting_period: BlockTime(1),
            vesting_increment: Amount(0),
        }
    }
}

impl Timing {
    /// A one-bit tag (0 untimed, 1 timed), then the five atoms of the schedule,
    /// the default schedule standing in for an untimed account.
    pub open spec fn encoding(self) -> Seq<Atom> {
        match self {
            Timing::Untimed => seq![Atom::Packed { value: 0, bits: 1 }]
                + TimedData::spec_default().encoding(),
            Timing::Timed(t) => seq![Atom::Packed { value: 1, bits: 1 }] + t.encoding(),
        }
    }

    /// Timing read from a document: timed when every field of the schedule
    /// reads, untimed otherwise.
    pub open spec fn from_doc(doc: serde_json::Value) -> Timing {
        match TimedData::from_doc(doc) {
            Ok(t) => Timing::Timed(t),
            Err(_) => Timing::Untimed,
        }
    }

    /// Hash-oracle input of the timing: always six atoms, the first a
    /// one-bit packed tag.
    pub fn to_chunked_roinput(&self) -> (r: ChunkedROInput)
        ensures
            r@ == self.encoding(),
            r@.len() == 6,
            r@[0] is Packed && r@[0]->bits == 1,
    {
        let r = match self {
            Timing::Untimed => {
                let d = TimedData::default();
                ChunkedROInput::new().append_packed(0, 1).append_chunked(d.to_chunked_roinput())
            },
            Timing::Timed(timed) => {
                ChunkedROInput::new().append_packed(1, 1).append_chunked(timed.to_chunked_roinput())
            },
        };
        assert(r@ =~= self.encoding());
        r
    }

    /// Timing from a document; a schedule that does not read in full makes
    /// the account untimed, so this never fails.
    pub fn from_graphql_json(json: &serde_json::Value) -> (r: Result<Timing, ParseError>)
        ensures
            r == Ok::<Timing, ParseError>(Timing::from_doc(*json)),
    {
        Ok(
            match TimedData::from_graphql_json(json) {
                Ok(data) => Timing::Timed(data),
                Err(_) => Timing::Untimed,
            },
        )
    }
}

impl Default for Timing {
    /// Untimed.
    fn default() -> (r: Timing)
        ensures
            r == Timing::Untimed,
    {
        Timing::Untimed
    }
}

/// An untimed account encodes as a zero tag followed by the default schedule;
/// a timed account with the default schedule encodes as a one tag followed by
/// the same atoms, so the two differ in the first atom's value alone.
pub proof fn lemma_untimed_and_default_timed()
    ensures
        Timing::Untimed.encoding() == seq![Atom::Packed { value: 0, bits: 1 }]
            + TimedData::spec_default().encoding(),
        Timing::Timed(TimedData::spec_default()).encoding() == seq![
            Atom::Packed { value: 1, bits: 1 },
        ] + TimedData::spec_default().encoding(),
        Timing::Untimed.encoding().len() == Timing::Timed(TimedData::spec_default()).encoding().len(),
        Timing::Untimed.encoding()[0] != Timing::Timed(TimedData::spec_default()).encoding()[0],
        forall|i: int|
            1 <= i < Timing::Untimed.encoding().len() ==> Timing::Untimed.encoding()[i]
                == Timing::Timed(TimedData::spec_default()).encoding()[i],
{
}

/// A document without a string under `vestingPeriod` gives an untimed
/// account, whatever its other fields hold.
pub proof fn lemma_missing_vesting_period_is_untimed(doc: serde_json::Value)
    requires
        !string_fields(doc).contains_key("vestingPeriod"@),
    ensures
        Timing::from_doc(doc) == Timing::Untimed,
{
}

} // verus!
