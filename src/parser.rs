use crate::date::{date_from_text, parse_date, Date};
use crate::models::Vehicle;
use crate::text::opt_text;
use vstd::prelude::*;

verus! {

/// A row must hold text in at least this many fields to describe a vehicle
/// (vin, warranty date, customer name, customer phone).
pub const MIN_FIELDS: usize = 4;

pub const COL_VIN: usize = 0;

pub const COL_WARRANTY_EXP_DATE: usize = 1;

pub const COL_CUSTOMER_NAME: usize = 2;

pub const COL_CUSTOMER_PHONE: usize = 3;

pub const COL_CUSTOMER_EMAIL: usize = 4;

pub const COL_CUSTOMER_ZIP: usize = 5;

pub const COL_LAST_SERVICE_DATE: usize = 6;

/// A row that was left out because too few of its fields hold text. This is
/// not an error: the row is only not processed.
#[derive(Clone, Copy, Debug, PartialEq, Eq, Structural)]
pub struct RowSkipped {
    /// How many fields of the row hold text.
    pub populated_count: usize,
}

/// How many of `fields` hold text.
pub open spec fn populated(fields: Seq<String>) -> nat
    decreases fields.len(),
{
    if fields.len() == 0 {
        0
    } else {
        populated(fields.drop_last()) + if fields.last()@.len() > 0 {
            1nat
        } else {
            0nat
        }
    }
}

/// A row describes a vehicle when at least `MIN_FIELDS` of its fields hold
/// text.
pub open spec fn describes_vehicle(fields: Seq<String>) -> bool {
    populated(fields) >= MIN_FIELDS
}

/// A row has no more populated fields than fields.
pub proof fn lemma_populated_within_length(fields: Seq<String>)
    ensures
        populated(fields) <= fields.len(),
    decreases fields.len(),
{
    if fields.len() > 0 {
        lemma_populated_within_length(fields.drop_last());
    }
}

fn count_populated(fields: &Vec<String>) -> (r: usize)
    ensures
        r == populated(fields@),
{
    let mut count: usize = 0;
    let mut i: usize = 0;
    while i < fields.len()
        invariant
            0 <= i <= fields@.len(),
            count == populated(fields@.take(i as int)),
            count <= i,
        decreases fields@.len() - i,
    {
        assert(fields@.take(i as int + 1).drop_last() =~= fields@.take(i as int));
        assert(fields@.take(i as int + 1).last() == fields@[i as int]);
        if !fields[i].as_str().is_empty() {
            count = count + 1;
        }
        i = i + 1;
    }
    assert(fields@.take(fields@.len() as int) =~= fields@);
    count
}

/// The text of an optional column: absent when the column is missing or empty.
pub open spec fn optional_column(fields: Seq<String>, i: int) -> Option<Seq<char>> {
    if i < fields.len() && fields[i]@.len() > 0 {
        Some(fields[i]@)
    } else {
        None
    }
}

/// The date of an optional column: absent when the column is missing or does
/// not hold a date.
pub open spec fn optional_date(fields: Seq<String>, i: int) -> Option<Date> {
    if i < fields.len() {
        date_from_text(fields[i]@)
    } else {
        None
    }
}

/// `v` is the vehicle that the row `fields` of upload `upload_id` describes.
pub open spec fn vehicle_from_row(
    fields: Seq<String>,
    upload_id: i32,
    dealer_id: i32,
    v: Vehicle,
) -> bool {
    &&& v.upload_id == upload_id
    &&& v.dealer_id == dealer_id
    &&& v.vin@ == fields[COL_VIN as int]@
    &&& v.warranty_exp_date == date_from_text(fields[COL_WARRANTY_EXP_DATE as int]@)
    &&& v.customer_name@ == fields[COL_CUSTOMER_NAME as int]@
    &&& v.customer_phone@ == fields[COL_CUSTOMER_PHONE as int]@
    &&& opt_text(v.customer_email) == optional_column(fields, COL_CUSTOMER_EMAIL as int)
    &&& opt_text(v.customer_zip) == optional_column(fields, COL_CUSTOMER_ZIP as int)
    &&& v.last_service_date == optional_date(fields, COL_LAST_SERVICE_DATE as int)
}

fn text_column(fields: &Vec<String>, i: usize) -> (r: Option<String>)
    ensures
        opt_text(r) == optional_column(fields@, i as int),
{
    if i < fields.len() && !fields[i].as_str().is_empty() {
        Some(fields[i].clone())
    } else {
        None
    }
}

fn date_column(fields: &Vec<String>, i: usize) -> (r: Option<Date>)
    ensures
        r == optional_date(fields@, i as int),
        r matches Some(d) ==> d.wf(),
{
    if i < fields.len() {
        parse_date(fields[i].as_str())
    } else {
        None
    }
}

/// Reads one row of an upload into a vehicle record, or skips it when fewer
/// than `MIN_FIELDS` of its fields hold text. Dates that do not parse are
/// absent.
pub fn parse_row(fields: &Vec<String>, upload_id: i32, dealer_id: i32) -> (r: Result<
    Vehicle,
    RowSkipped,
>)
    ensures
        r is Err <==> !describes_vehicle(fields@),
        r matches Err(s) ==> s.populated_count == populated(fields@),
        r matches Ok(v) ==> vehicle_from_row(fields@, upload_id, dealer_id, v),
        r matches Ok(v) ==> (v.warranty_exp_date matches Some(d) ==> d.wf()),
        r matches Ok(v) ==> (v.last_service_date matches Some(d) ==> d.wf()),
{
    let count = count_populated(fields);
    if count < MIN_FIELDS {
        return Err(RowSkipped { populated_count: count });
    }
    proof {
        lemma_populated_within_length(fields@);
    }
    Ok(
        Vehicle {
            upload_id,
            dealer_id,
            vin: fields[COL_VIN].clone(),
            warranty_exp_date: date_column(fields, COL_WARRANTY_EXP_DATE),
            customer_name: fields[COL_CUSTOMER_NAME].clone(),
            customer_phone: fields[COL_CUSTOMER_PHONE].clone(),
            customer_email: text_column(fields, COL_CUSTOMER_EMAIL),
            customer_zip: text_column(fields, COL_CUSTOMER_ZIP),
            last_service_date: date_column(fields, COL_LAST_SERVICE_DATE),
        },
    )
}

/// One record of a delimited file: its fields, or why it could not be read.
pub open spec fn record_view(r: Result<Vec<String>, String>) -> Result<Seq<Seq<char>>, Seq<char>> {
    match r {
        Ok(f) => Ok(f@.map_values(|s: String| s@)),
        Err(e) => Err(e@),
    }
}

/// The records that the csv reader finds in `data`, in order.
pub uninterp spec fn csv_records(data: Seq<u8>, has_headers: bool, flexible: bool) -> Seq<
    Result<Seq<Seq<char>>, Seq<char>>,
>;

/// Relies on csv's `ReaderBuilder` (`has_headers`, `flexible`, `from_reader`)
/// and `Reader::records`: each record of `data` in order, as its fields or as
/// the message of the error met reading it.
#[verifier::external_body]
fn read_csv_records(data: &[u8], has_headers: bool, flexible: bool) -> (r: Vec<
    Result<Vec<String>, String>,
>)
    ensures
        r@.map_values(|x: Result<Vec<String>, String>| record_view(x)) == csv_records(
            data@,
            has_headers,
            flexible,
        ),
{
    let mut builder = csv::ReaderBuilder::new();
    builder.has_headers(has_headers).flexible(flexible);
    builder.from_reader(data).records().map(|rec| {
        rec.map(|fields| fields.iter().map(String::from).collect()).map_err(|e| e.to_string())
    }).collect()
}

/// The rows of an uploaded file: the first line is a header and is not a row,
/// and rows may hold any number of fields.
pub fn read_upload_rows(data: &Vec<u8>) -> (r: Vec<Result<Vec<String>, String>>)
    ensures
        r@.map_values(|x: Result<Vec<String>, String>| record_view(x)) == csv_records(
            data@,
            true,
            true,
        ),
{
    read_csv_records(data.as_slice(), true, true)
}

} // verus!
