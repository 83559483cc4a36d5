use crate::text::{decimal, decimal_text};
use vstd::prelude::*;
use vstd::string::*;

verus! {

/// How many scored leads a listing returns when the client names no limit.
pub const DEFAULT_LEAD_LIMIT: i32 = 100;

/// Scored leads joined with their vehicles, in the column order that readers
/// of a listing expect.
pub const SCORED_LEAD_SELECT: &'static str =
    "SELECT sl.id, sl.vehicle_id, sl.upload_id, sl.urgency_score, sl.stressor_score, sl.warranty_score, sl.susceptibility_score, sl.telematic_score, sl.has_telematic, sl.stressor_type, sl.why_now, sl.call_by_date, sl.suggested_script, sl.created_at, v.id, v.upload_id, v.dealer_id, v.vin, v.warranty_exp_date, v.customer_name, v.customer_phone, v.customer_email, v.customer_zip, v.last_service_date, v.created_at FROM scored_leads sl JOIN vehicles v ON sl.vehicle_id = v.id";

/// The text of the `n`th query parameter.
pub open spec fn placeholder(n: nat) -> Seq<char> {
    "$"@ + decimal(n)
}

/// The listing query of one dealer's scored leads, most urgent first.
/// Parameters, in order: the dealer, the upload (when filtered by upload),
/// the least urgency (when filtered by urgency), the limit.
pub open spec fn scored_leads_query_text(by_upload: bool, by_min_score: bool) -> Seq<char> {
    let upload_param: nat = 2;
    let min_param: nat = if by_upload { 3 } else { 2 };
    let limit_param: nat = 2 + (if by_upload { 1nat } else { 0nat }) + (if by_min_score {
        1nat
    } else {
        0nat
    });
    SCORED_LEAD_SELECT@ + " WHERE v.dealer_id = $1"@ + (if by_upload {
        " AND sl.upload_id = "@ + placeholder(upload_param)
    } else {
        Seq::empty()
    }) + (if by_min_score {
        " AND sl.urgency_score >= "@ + placeholder(min_param)
    } else {
        Seq::empty()
    }) + " ORDER BY sl.urgency_score DESC"@ + " LIMIT "@ + placeholder(limit_param)
}

fn push_placeholder(query: &mut String, n: u64)
    ensures
        final(query)@ == old(query)@ + placeholder(n as nat),
{
    query.append("$");
    let digits = decimal_text(n);
    query.append(digits.as_str());
}

/// Builds the listing query of scored leads with the filters asked for.
pub fn scored_leads_query(by_upload: bool, by_min_score: bool) -> (r: String)
    ensures
        r@ == scored_leads_query_text(by_upload, by_min_score),
{
    let mut query = String::from_str(SCORED_LEAD_SELECT);
    query.append(" WHERE v.dealer_id = $1");
    let mut bind_count: u64 = 1;
    if by_upload {
        bind_count = bind_count + 1;
        query.append(" AND sl.upload_id = ");
        push_placeholder(&mut query, bind_count);
    }
    if by_min_score {
        bind_count = bind_count + 1;
        query.append(" AND sl.urgency_score >= ");
        push_placeholder(&mut query, bind_count);
    }
    query.append(" ORDER BY sl.urgency_score DESC");
    query.append(" LIMIT ");
    push_placeholder(&mut query, bind_count + 1);
    query
}

pub open spec fn is_digit(c: char) -> bool {
    '0' <= c && c <= '9'
}

/// The value of a run of decimal digits.
pub open spec fn digits_value(s: Seq<char>) -> int
    decreases s.len(),
{
    if s.len() == 0 {
        0
    } else {
        digits_value(s.drop_last()) * 10 + (s.last() as u32 - '0' as u32)
    }
}

/// The integer that an optional `+` or `-` followed by one or more decimal
/// digits names; none for any other text.
pub open spec fn signed_value(s: Seq<char>) -> Option<int> {
    let signed = s.len() > 0 && (s[0] == '+' || s[0] == '-');
    let body = if signed { s.skip(1) } else { s };
    if body.len() > 0 && forall|i: int| 0 <= i < body.len() ==> is_digit(#[trigger] body[i]) {
        Some(if signed && s[0] == '-' { -digits_value(body) } else { digits_value(body) })
    } else {
        None
    }
}

/// The `i32` that a text names in decimal, if it names one within range.
pub open spec fn i32_from_text(s: Seq<char>) -> Option<i32> {
    match signed_value(s) {
        Some(v) => if i32::MIN <= v <= i32::MAX {
            Some(v as i32)
        } else {
            None
        },
        None => None,
    }
}

/// Relies on `i32`'s `FromStr`: an optional sign and one or more decimal
/// digits, within the range of `i32`; any other text is an error.
#[verifier::external_body]
fn parse_i32(s: &str) -> (r: Option<i32>)
    ensures
        r == i32_from_text(s@),
{
    s.parse::<i32>().ok()
}

/// The integer in an optional query parameter.
pub open spec fn param_int(param: Option<&str>) -> Option<i32> {
    match param {
        Some(s) => i32_from_text(s@),
        None => None,
    }
}

/// The id in a query parameter, when it is present and an integer.
pub fn query_id(param: Option<&str>) -> (r: Option<i32>)
    ensures
        r == param_int(param),
{
    match param {
        Some(s) => parse_i32(s),
        None => None,
    }
}

/// The limit in a query parameter; `DEFAULT_LEAD_LIMIT` when it is absent or
/// not an integer.
pub fn query_limit(param: Option<&str>) -> (r: i32)
    ensures
        r == match param_int(param) {
            Some(n) => n,
            None => DEFAULT_LEAD_LIMIT,
        },
{
    match query_id(param) {
        Some(n) => n,
        None => DEFAULT_LEAD_LIMIT,
    }
}

} // verus!
