//! Records of the inventory service of Windows. Each class of the service
//! has a module with the record type of its instances: every property may
//! be missing, so nearly every field is optional.

pub mod disk_drive;
pub mod disk_partition;
pub mod disk_quota;
pub mod encryptable_volume;
pub mod logical_disk;
pub mod msft_disk;
pub mod msft_partition;
pub mod perf_disk_physical_disk;
pub mod physical_media;
pub mod quota_setting;
pub mod shadow_copy;
pub mod volume;
pub mod volume_quota;

use crate::errors::UFFSError;
use crate::text::{decimal_digits, push_decimal, signed_decimal_digits, signed_decimal_string};
use vstd::prelude::*;
use vstd::string::*;

verus! {

/// The text that `Debug` of the standard library gives for a list of
/// strings.
pub uninterp spec fn debug_list_text(items: Seq<Seq<char>>) -> Seq<char>;

/// The texts of a list of strings.
pub open spec fn texts_of(items: Seq<String>) -> Seq<Seq<char>> {
    Seq::new(items.len(), |i: int| items[i]@)
}

/// `Debug` of the standard library for a vector of strings, through
/// `format!`: the result depends on the strings alone.
#[verifier::external_body]
fn debug_list(items: &Vec<String>) -> (text: String)
    ensures
        text@ == debug_list_text(texts_of(items@)),
{
    format!("{:?}", items)
}

/// One line of the description of a record: the label, the value and a
/// line feed.
pub open spec fn line(label: Seq<char>, value: Seq<char>) -> Seq<char> {
    label + value + seq!['\n']
}

/// The line of a text property; nothing where the property is missing.
pub open spec fn text_line(label: Seq<char>, value: Option<String>) -> Seq<char> {
    match value {
        Some(text) => line(label, text@),
        None => Seq::empty(),
    }
}

/// The line of a property that is a number of 16 bits.
pub open spec fn u16_line(label: Seq<char>, value: Option<u16>) -> Seq<char> {
    match value {
        Some(number) => line(label, decimal_digits(number as nat)),
        None => Seq::empty(),
    }
}

/// The line of a property that is a number of 32 bits.
pub open spec fn u32_line(label: Seq<char>, value: Option<u32>) -> Seq<char> {
    match value {
        Some(number) => line(label, decimal_digits(number as nat)),
        None => Seq::empty(),
    }
}

/// The line of a property that is a number of 64 bits.
pub open spec fn u64_line(label: Seq<char>, value: Option<u64>) -> Seq<char> {
    match value {
        Some(number) => line(label, decimal_digits(number as nat)),
        None => Seq::empty(),
    }
}

/// The line of a property that is a signed number of 32 bits.
pub open spec fn i32_line(label: Seq<char>, value: Option<i32>) -> Seq<char> {
    match value {
        Some(number) => line(label, signed_decimal_digits(number as int)),
        None => Seq::empty(),
    }
}

/// The line of a property that is a signed number of 64 bits.
pub open spec fn i64_line(label: Seq<char>, value: Option<i64>) -> Seq<char> {
    match value {
        Some(number) => line(label, signed_decimal_digits(number as int)),
        None => Seq::empty(),
    }
}

/// The line of a property that is true or false.
pub open spec fn bool_line(label: Seq<char>, value: Option<bool>) -> Seq<char> {
    match value {
        Some(flag) => line(
            label,
            if flag {
                "true"@
            } else {
                "false"@
            },
        ),
        None => Seq::empty(),
    }
}

/// The line of a property that is a list of texts.
pub open spec fn list_line(label: Seq<char>, value: Option<Vec<String>>) -> Seq<char> {
    match value {
        Some(items) => line(label, debug_list_text(texts_of(items@))),
        None => Seq::empty(),
    }
}

/// Appends the line of a property that always has a value.
pub fn push_line(out: &mut String, label: &str, value: &str)
    ensures
        final(out)@ == old(out)@ + line(label@, value@),
{
    out.append(label);
    out.append(value);
    out.push('\n');
    assert(out@ =~= old(out)@ + line(label@, value@));
}

/// Appends the line of a text property.
pub fn push_text_line(out: &mut String, label: &str, value: &Option<String>)
    ensures
        final(out)@ == old(out)@ + text_line(label@, *value),
{
    match value {
        Some(text) => push_line(out, label, text.as_str()),
        None => {
            assert(out@ =~= out@ + Seq::<char>::empty());
        },
    }
}

fn push_unsigned_line(out: &mut String, label: &str, number: u64)
    ensures
        final(out)@ == old(out)@ + line(label@, decimal_digits(number as nat)),
{
    out.append(label);
    push_decimal(out, number as u128);
    out.push('\n');
    assert(out@ =~= old(out)@ + line(label@, decimal_digits(number as nat)));
}

fn push_signed_line(out: &mut String, label: &str, number: i64)
    ensures
        final(out)@ == old(out)@ + line(label@, signed_decimal_digits(number as int)),
{
    let digits = signed_decimal_string(number);
    push_line(out, label, digits.as_str());
}

/// Appends the line of a property that is a number of 16 bits.
pub fn push_u16_line(out: &mut String, label: &str, value: &Option<u16>)
    ensures
        final(out)@ == old(out)@ + u16_line(label@, *value),
{
    match value {
        Some(number) => push_unsigned_line(out, label, *number as u64),
        None => {
            assert(out@ =~= out@ + Seq::<char>::empty());
        },
    }
}

/// Appends the line of a property that is a number of 32 bits.
pub fn push_u32_line(out: &mut String, label: &str, value: &Option<u32>)
    ensures
        final(out)@ == old(out)@ + u32_line(label@, *value),
{
    match value {
        Some(number) => push_unsigned_line(out, label, *number as u64),
        None => {
            assert(out@ =~= out@ + Seq::<char>::empty());
        },
    }
}

/// Appends the line of a property that is a number of 64 bits.
pub fn push_u64_line(out: &mut String, label: &str, value: &Option<u64>)
    ensures
        final(out)@ == old(out)@ + u64_line(label@, *value),
{
    match value {
        Some(number) => push_unsigned_line(out, label, *number),
        None => {
            assert(out@ =~= out@ + Seq::<char>::empty());
        },
    }
}

/// Appends the line of a property that is a signed number of 32 bits.
pub fn push_i32_line(out: &mut String, label: &str, value: &Option<i32>)
    ensures
        final(out)@ == old(out)@ + i32_line(label@, *value),
{
    match value {
        Some(number) => push_signed_line(out, label, *number as i64),
        None => {
            assert(out@ =~= out@ + Seq::<char>::empty());
        },
    }
}

/// Appends the line of a property that is a signed number of 64 bits.
pub fn push_i64_line(out: &mut String, label: &str, value: &Option<i64>)
    ensures
        final(out)@ == old(out)@ + i64_line(label@, *value),
{
    match value {
        Some(number) => push_signed_line(out, label, *number),
        None => {
            assert(out@ =~= out@ + Seq::<char>::empty());
        },
    }
}

/// Appends the line of a property that is true or false.
pub fn push_bool_line(out: &mut String, label: &str, value: &Option<bool>)
    ensures
        final(out)@ == old(out)@ + bool_line(label@, *value),
{
    match value {
        Some(flag) => {
            if *flag {
                push_line(out, label, "true");
            } else {
                push_line(out, label, "false");
            }
        },
        None => {
            assert(out@ =~= out@ + Seq::<char>::empty());
        },
    }
}

/// Appends the line of a property that is a list of texts.
pub fn push_list_line(out: &mut String, label: &str, value: &Option<Vec<String>>)
    ensures
        final(out)@ == old(out)@ + list_line(label@, *value),
{
    match value {
        Some(items) => {
            let text = debug_list(items);
            push_line(out, label, text.as_str());
        },
        None => {
            assert(out@ =~= out@ + Seq::<char>::empty());
        },
    }
}

/// Where a query of the inventory service can fail.
#[derive(Debug, Clone, Copy, PartialEq, Eq, Hash, Structural)]
pub enum QueryStage {
    /// The component library of the system could not be started.
    InitializeCom,
    /// The namespace of the service could not be reached.
    Connect,
    /// The query itself failed.
    Execute,
}

impl QueryStage {
    /// What the error says of a failure at this stage, before the detail.
    pub open spec fn failure_text(self) -> Seq<char> {
        match self {
            QueryStage::InitializeCom => "Failed to initialize COM: "@,
            QueryStage::Connect => "Failed to connect to WMI namespace: "@,
            QueryStage::Execute => "Failed to execute WMI query: "@,
        }
    }
}

/// A query that failed: the stage at which it failed, and what the service
/// said.
#[derive(Debug, Clone, PartialEq, Eq, Hash)]
pub struct QueryFailure {
    pub stage: QueryStage,
    pub detail: String,
}

/// The error for a query that failed at `stage` with `detail`.
pub fn query_failed(stage: QueryStage, detail: &str) -> (error: UFFSError)
    ensures
        error matches UFFSError::WMIQueryFailed(text) && text@ == stage.failure_text() + detail@,
{
    let start = match stage {
        QueryStage::InitializeCom => "Failed to initialize COM: ",
        QueryStage::Connect => "Failed to connect to WMI namespace: ",
        QueryStage::Execute => "Failed to execute WMI query: ",
    };
    UFFSError::WMIQueryFailed(String::from_str(start).concat(detail))
}

/// Turns what a query gave into what its caller gets: a failure of the
/// query is a `WMIQueryFailed` that says where it failed, no record at all
/// is `EmptyDriveInfo`, and one record or more are handed on as they are.
pub fn query_outcome<T>(answer: Result<Vec<T>, QueryFailure>) -> (outcome: Result<
    Vec<T>,
    UFFSError,
>)
    ensures
        match answer {
            Err(failure) => outcome matches Err(UFFSError::WMIQueryFailed(text)) && text@
                == failure.stage.failure_text() + failure.detail@,
            Ok(records) => if records.len() == 0 {
                outcome == Err::<Vec<T>, UFFSError>(UFFSError::EmptyDriveInfo)
            } else {
                outcome == Ok::<Vec<T>, UFFSError>(records)
            },
        },
{
    match answer {
        Err(failure) => Err(query_failed(failure.stage, failure.detail.as_str())),
        Ok(records) => {
            if records.len() == 0 {
                Err(UFFSError::EmptyDriveInfo)
            } else {
                Ok(records)
            }
        },
    }
}

} // verus!
