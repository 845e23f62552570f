//! The record model: one portal record and the closed vocabularies that
//! travel with it, each with its wire mapping.

use crate::report_date_format::ReportDate;
use vstd::prelude::*;
use vstd::string::*;

verus! {

/// Why a wire value could not be turned into a value of the model.
#[derive(Debug, Clone, Copy, PartialEq, Eq, Structural)]
pub enum DecodeError {
    /// The list-type token is neither of the two known ones.
    UnknownListType,
    /// The record-type code or label is outside the closed set.
    UnknownRecordType,
    /// The report date is neither the absence marker nor a date in the portal's format.
    MalformedDate,
}

/// Whether two texts hold the same characters.
pub fn same_text(a: &str, b: &str) -> (same: bool)
    ensures
        same == (a@ == b@),
{
    let left: String = a.to_owned();
    let right: String = b.to_owned();
    left == right
}

/// Which of the portal's two listings a request addresses.
#[derive(Debug, Clone, Copy, PartialEq, Eq, Structural)]
pub enum ListType {
    Reported,
    Unreported,
}

impl ListType {
    /// The token that stands for this listing on the wire.
    pub open spec fn wire(self) -> Seq<char> {
        match self {
            ListType::Reported => "reportedRecords"@,
            ListType::Unreported => "unreportedRecords"@,
        }
    }

    /// The listing a wire token stands for, if any.
    pub open spec fn decode(token: Seq<char>) -> Option<ListType> {
        if token == "reportedRecords"@ {
            Some(ListType::Reported)
        } else if token == "unreportedRecords"@ {
            Some(ListType::Unreported)
        } else {
            None
        }
    }

    /// The wire token of this listing.
    pub fn to_str(&self) -> (token: &'static str)
        ensures
            token@ == self.wire(),
    {
        match self {
            ListType::Reported => "reportedRecords",
            ListType::Unreported => "unreportedRecords",
        }
    }

    /// Decodes a wire token; anything but the two known tokens is an error.
    pub fn from_str(s: &str) -> (decoded: Result<ListType, DecodeError>)
        ensures
            decoded == match ListType::decode(s@) {
                Some(t) => Ok::<ListType, DecodeError>(t),
                None => Err::<ListType, DecodeError>(DecodeError::UnknownListType),
            },
    {
        if same_text(s, "reportedRecords") {
            Ok(ListType::Reported)
        } else if same_text(s, "unreportedRecords") {
            Ok(ListType::Unreported)
        } else {
            Err(DecodeError::UnknownListType)
        }
    }
}

/// Decoding the token of a listing gives that listing back, and a token
/// decodes to a listing only if it is that listing's token.
pub proof fn list_type_round_trip(t: ListType, token: Seq<char>)
    ensures
        ListType::decode(t.wire()) == Some(t),
        ListType::decode(token) == Some(t) <==> token == t.wire(),
{
    reveal_strlit("reportedRecords");
    reveal_strlit("unreportedRecords");
    assert("reportedRecords"@.len() != "unreportedRecords"@.len());
}

/// The kind of examination a record holds.
#[derive(Debug, Clone, Copy, PartialEq, Eq, Hash, Structural)]
pub enum RecordType {
    Ecg,
    HolterEcg,
    Abpm,
}

impl RecordType {
    /// The integer that stands for this kind on the wire.
    pub open spec fn code(self) -> int {
        match self {
            RecordType::Ecg => 1,
            RecordType::HolterEcg => 3,
            RecordType::Abpm => 5,
        }
    }

    /// The kind a wire integer stands for, if any.
    pub open spec fn decode_code(code: int) -> Option<RecordType> {
        if code == 1 {
            Some(RecordType::Ecg)
        } else if code == 3 {
            Some(RecordType::HolterEcg)
        } else if code == 5 {
            Some(RecordType::Abpm)
        } else {
            None
        }
    }

    /// The label under which the portal shows this kind.
    pub open spec fn label(self) -> Seq<char> {
        match self {
            RecordType::Ecg => "ECG a riposo"@,
            RecordType::HolterEcg => "Holter ECG"@,
            RecordType::Abpm => "ABPM"@,
        }
    }

    /// The kind a label names, if any.
    pub open spec fn decode_label(label: Seq<char>) -> Option<RecordType> {
        if label == "ECG a riposo"@ {
            Some(RecordType::Ecg)
        } else if label == "Holter ECG"@ {
            Some(RecordType::HolterEcg)
        } else if label == "ABPM"@ {
            Some(RecordType::Abpm)
        } else {
            None
        }
    }

    /// The unit price of one record of this kind, in whole euros.
    pub open spec fn unit_price(self) -> int {
        match self {
            RecordType::Ecg => 4,
            RecordType::HolterEcg => 15,
            RecordType::Abpm => 8,
        }
    }

    /// The label of this kind.
    pub fn to_str(&self) -> (label: &'static str)
        ensures
            label@ == self.label(),
    {
        match self {
            RecordType::Ecg => "ECG a riposo",
            RecordType::HolterEcg => "Holter ECG",
            RecordType::Abpm => "ABPM",
        }
    }

    /// Decodes a label; anything but the three known labels is an error.
    pub fn from_str(s: &str) -> (decoded: Result<RecordType, DecodeError>)
        ensures
            decoded == match RecordType::decode_label(s@) {
                Some(t) => Ok::<RecordType, DecodeError>(t),
                None => Err::<RecordType, DecodeError>(DecodeError::UnknownRecordType),
            },
    {
        if same_text(s, "ECG a riposo") {
            Ok(RecordType::Ecg)
        } else if same_text(s, "Holter ECG") {
            Ok(RecordType::HolterEcg)
        } else if same_text(s, "ABPM") {
            Ok(RecordType::Abpm)
        } else {
            Err(DecodeError::UnknownRecordType)
        }
    }

    /// The wire integer of this kind.
    pub fn to_code(&self) -> (code: i32)
        ensures
            code == self.code(),
    {
        match self {
            RecordType::Ecg => 1,
            RecordType::HolterEcg => 3,
            RecordType::Abpm => 5,
        }
    }

    /// Decodes a wire integer; anything but the three known codes is an error.
    pub fn from_code(code: i32) -> (decoded: Result<RecordType, DecodeError>)
        ensures
            decoded == match RecordType::decode_code(code as int) {
                Some(t) => Ok::<RecordType, DecodeError>(t),
                None => Err::<RecordType, DecodeError>(DecodeError::UnknownRecordType),
            },
    {
        if code == 1 {
            Ok(RecordType::Ecg)
        } else if code == 3 {
            Ok(RecordType::HolterEcg)
        } else if code == 5 {
            Ok(RecordType::Abpm)
        } else {
            Err(DecodeError::UnknownRecordType)
        }
    }

    /// The unit price of one record of this kind, in whole euros.
    pub fn price_euros(&self) -> (price: u32)
        ensures
            price == self.unit_price(),
    {
        match self {
            RecordType::Ecg => 4,
            RecordType::HolterEcg => 15,
            RecordType::Abpm => 8,
        }
    }
}

/// Decoding the code of a kind gives that kind back; a code decodes to a
/// kind only if it is that kind's code; and only 1, 3 and 5 decode at all.
pub proof fn record_type_code_round_trip(t: RecordType, code: int)
    ensures
        RecordType::decode_code(t.code()) == Some(t),
        RecordType::decode_code(code) == Some(t) <==> code == t.code(),
        RecordType::decode_code(code) is Some <==> (code == 1 || code == 3 || code == 5),
{
}

/// Decoding the label of a kind gives that kind back, and a label decodes
/// to a kind only if it is that kind's label.
pub proof fn record_type_label_round_trip(t: RecordType, label: Seq<char>)
    ensures
        RecordType::decode_label(t.label()) == Some(t),
        RecordType::decode_label(label) == Some(t) <==> label == t.label(),
{
    reveal_strlit("ECG a riposo");
    reveal_strlit("Holter ECG");
    reveal_strlit("ABPM");
    assert("ECG a riposo"@.len() == 12);
    assert("Holter ECG"@.len() == 10);
    assert("ABPM"@.len() == 4);
}

/// The turnaround a record was booked with.
#[derive(Debug, Clone, Copy, PartialEq, Eq, Hash, Structural)]
pub enum ServiceLevel {
    ECG90,
    ECGDAY,
    HC24,
    HC48,
    HP24,
    Unknown,
}

impl ServiceLevel {
    /// The token that stands for this level on the wire.
    pub open spec fn wire(self) -> Seq<char> {
        match self {
            ServiceLevel::ECG90 => "TR-ECG-90"@,
            ServiceLevel::ECGDAY => "TR-ECG-DAY"@,
            ServiceLevel::HC24 => "TR-HC-24"@,
            ServiceLevel::HC48 => "TR-HC-48"@,
            ServiceLevel::HP24 => "TR-HP-24"@,
            ServiceLevel::Unknown => "unknown"@,
        }
    }

    /// The level a wire token stands for; a token that names none of the
    /// five levels stands for `Unknown`.
    pub open spec fn decode(token: Seq<char>) -> ServiceLevel {
        if token == "TR-ECG-90"@ {
            ServiceLevel::ECG90
        } else if token == "TR-ECG-DAY"@ {
            ServiceLevel::ECGDAY
        } else if token == "TR-HC-24"@ {
            ServiceLevel::HC24
        } else if token == "TR-HC-48"@ {
            ServiceLevel::HC48
        } else if token == "TR-HP-24"@ {
            ServiceLevel::HP24
        } else {
            ServiceLevel::Unknown
        }
    }

    /// The wire token of this level.
    pub fn to_str(&self) -> (token: &'static str)
        ensures
            token@ == self.wire(),
    {
        match self {
            ServiceLevel::ECG90 => "TR-ECG-90",
            ServiceLevel::ECGDAY => "TR-ECG-DAY",
            ServiceLevel::HC24 => "TR-HC-24",
            ServiceLevel::HC48 => "TR-HC-48",
            ServiceLevel::HP24 => "TR-HP-24",
            ServiceLevel::Unknown => "unknown",
        }
    }

    /// Decodes a wire token. This never fails: a token that names none
    /// of the five levels gives `Unknown`.
    pub fn from_str(s: &str) -> (level: ServiceLevel)
        ensures
            level == ServiceLevel::decode(s@),
    {
        if same_text(s, "TR-ECG-90") {
            ServiceLevel::ECG90
        } else if same_text(s, "TR-ECG-DAY") {
            ServiceLevel::ECGDAY
        } else if same_text(s, "TR-HC-24") {
            ServiceLevel::HC24
        } else if same_text(s, "TR-HC-48") {
            ServiceLevel::HC48
        } else if same_text(s, "TR-HP-24") {
            ServiceLevel::HP24
        } else {
            ServiceLevel::Unknown
        }
    }
}

/// Decoding the token of a level gives that level back, and a token other
/// than those of the five named levels decodes to `Unknown`.
pub proof fn service_level_round_trip(level: ServiceLevel, token: Seq<char>)
    ensures
        ServiceLevel::decode(level.wire()) == level,
        ServiceLevel::decode(token) != ServiceLevel::Unknown ==> token == ServiceLevel::decode(
            token,
        ).wire(),
{
    reveal_strlit("TR-ECG-90");
    reveal_strlit("TR-ECG-DAY");
    reveal_strlit("TR-HC-24");
    reveal_strlit("TR-HC-48");
    reveal_strlit("TR-HP-24");
    reveal_strlit("unknown");
    assert("TR-ECG-90"@.len() == 9);
    assert("TR-ECG-DAY"@.len() == 10);
    assert("unknown"@.len() == 7);
    assert("TR-HC-24"@[6] == '2' && "TR-HC-24"@[4] == 'C');
    assert("TR-HC-48"@[6] == '4' && "TR-HC-48"@[4] == 'C');
    assert("TR-HP-24"@[4] == 'P');
    assert("TR-HC-24"@.len() == 8 && "TR-HC-48"@.len() == 8 && "TR-HP-24"@.len() == 8);
}

/// The form that opens a session with the portal.
#[derive(Debug, Clone)]
pub struct LoginRequest {
    pub login: String,
    pub password: String,
}

/// The query of one listing request.
#[derive(Debug, Clone)]
pub struct GetRecordsRequest {
    pub counter: i32,
    pub type_log: String,
    pub list_type: ListType,
    pub record_types_filter: String,
    pub search_filter: String,
}

/// The portal's answer to one listing request.
#[derive(Debug, Clone)]
pub struct GetRecordsResponse {
    pub count: i32,
    pub counter: i32,
    pub list: Vec<Record>,
}

/// One record of the portal.
#[derive(Debug, Clone)]
pub struct Record {
    pub status: String,
    pub id: String,
    pub timezone_indication: String,
    pub last_report_revision: String,
    pub last_report_date: Option<ReportDate>,
    pub record_type_id: RecordType,
    pub record_type_name: String,
    pub firstname: String,
    pub lastname: String,
    pub url: String,
    pub health_code: Option<String>,
    pub reception_date: String,
    pub date: String,
    pub requester: String,
    pub effective_service_level: Option<ServiceLevel>,
}

impl Record {
    /// Whether the label that the record carries is the one of its kind.
    /// The code of the kind is what counts; the label only mirrors it.
    pub open spec fn label_agrees(self) -> bool {
        self.record_type_name@ == self.record_type_id.label()
    }

    /// Whether the label that the record carries is the one of its kind.
    pub fn has_matching_label(&self) -> (agrees: bool)
        ensures
            agrees == self.label_agrees(),
    {
        same_text(self.record_type_name.as_str(), self.record_type_id.to_str())
    }

    /// Whether the record was last reported in the given month of some year.
    pub open spec fn reported_in(self, month: u32) -> bool {
        match self.last_report_date {
            Some(d) => d.month == month,
            None => false,
        }
    }

    /// Whether the record was last reported in the given month. A record
    /// without a report date was reported in no month.
    pub fn is_reported_in(&self, month: u32) -> (hit: bool)
        ensures
            hit == self.reported_in(month),
    {
        match self.last_report_date {
            Some(d) => d.month == month,
            None => false,
        }
    }
}

} // verus!
