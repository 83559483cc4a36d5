use crate::date::{today_utc, Date};
use crate::models::Vehicle;
use crate::text::{decimal, decimal_text};
use vstd::prelude::*;
use vstd::string::*;

verus! {

/// Scores are held in thousandths: this value stands for a score of 1.0.
pub const SCORE_MAX: u32 = 1000;

/// The telematic score while no source of telematic data is connected.
pub const TELEMATIC_PLACEHOLDER: u32 = 100;

/// Why a customer should be contacted now.
#[derive(Clone, Copy, Debug, PartialEq, Eq, Structural)]
pub enum StressorType {
    WarrantyExpiring,
    ServiceOverdue,
    MultipleConcerns,
    MaintenanceReminder,
}

impl StressorType {
    pub open spec fn label_spec(self) -> Seq<char> {
        match self {
            StressorType::WarrantyExpiring => "Warranty Expiring"@,
            StressorType::ServiceOverdue => "Service Overdue"@,
            StressorType::MultipleConcerns => "Multiple Concerns"@,
            StressorType::MaintenanceReminder => "Maintenance Reminder"@,
        }
    }

    /// The label under which the stressor is stored and shown.
    pub fn label(&self) -> (r: String)
        ensures
            r@ == self.label_spec(),
    {
        match self {
            StressorType::WarrantyExpiring => String::from_str("Warranty Expiring"),
            StressorType::ServiceOverdue => String::from_str("Service Overdue"),
            StressorType::MultipleConcerns => String::from_str("Multiple Concerns"),
            StressorType::MaintenanceReminder => String::from_str("Maintenance Reminder"),
        }
    }
}

/// Everything derived from one vehicle record. Scores are in thousandths.
#[derive(Clone, Debug)]
pub struct LeadScores {
    pub urgency_score: u32,
    pub stressor_score: u32,
    pub warranty_score: u32,
    pub susceptibility_score: u32,
    pub telematic_score: u32,
    pub has_telematic: bool,
    pub stressor_type: Option<StressorType>,
    pub why_now: String,
    pub call_by_date: Date,
    pub suggested_script: String,
}

/// Warranty score for a warranty that ends `days` days from today.
pub open spec fn warranty_score_for(days: int) -> u32 {
    if days < 0 {
        0
    } else if days <= 30 {
        1000
    } else if days <= 60 {
        800
    } else if days <= 90 {
        600
    } else {
        300
    }
}

/// Warranty score of an optional warranty end date; no date scores nothing.
pub open spec fn warranty_score_of(exp: Option<Date>, today: Date) -> u32 {
    match exp {
        Some(e) => warranty_score_for(e.days - today.days),
        None => 0,
    }
}

/// Service score for a last service `days` days before today.
pub open spec fn service_score_for(days: int) -> u32 {
    if days > 365 {
        900
    } else if days > 180 {
        700
    } else if days > 90 {
        500
    } else {
        200
    }
}

/// Service score of an optional last service date; no record counts as a
/// strong signal.
pub open spec fn service_score_of(last: Option<Date>, today: Date) -> u32 {
    match last {
        Some(l) => service_score_for(today.days - l.days),
        None => 800,
    }
}

/// A non-negative value capped at 1.0.
pub open spec fn capped(x: int) -> u32 {
    if x > 1000 {
        1000
    } else {
        x as u32
    }
}

/// 0.6 × warranty + 0.4 × service, capped at 1.0. On the scores that the
/// brackets give, the division is exact.
pub open spec fn stressor_score_of(warranty: u32, service: u32) -> u32 {
    capped((600 * warranty + 400 * service) / 1000)
}

/// First matching rule wins.
pub open spec fn stressor_type_of(warranty: u32, service: u32) -> StressorType {
    if warranty > 700 {
        StressorType::WarrantyExpiring
    } else if service > 700 {
        StressorType::ServiceOverdue
    } else if warranty > 500 && service > 500 {
        StressorType::MultipleConcerns
    } else {
        StressorType::MaintenanceReminder
    }
}

/// Completeness of the customer's contact data.
pub open spec fn susceptibility_of(has_email: bool, has_zip: bool) -> u32 {
    if has_email && has_zip {
        800
    } else if has_email || has_zip {
        500
    } else {
        300
    }
}

/// 0.3 × warranty + 0.3 × service + 0.2 × stressor + 0.1 × susceptibility
/// + 0.1 × telematic, capped at 1.0.
pub open spec fn urgency_score_of(
    warranty: u32,
    service: u32,
    stressor: u32,
    susceptibility: u32,
    telematic: u32,
) -> u32 {
    capped(
        (300 * warranty + 300 * service + 200 * stressor + 100 * susceptibility + 100 * telematic)
            / 1000,
    )
}

/// Days from today to the call-by date.
pub open spec fn call_by_offset(urgency: u32) -> int {
    if urgency > 800 {
        1
    } else if urgency > 600 {
        3
    } else if urgency > 400 {
        7
    } else {
        14
    }
}

/// The warranty clause of the narrative, if the warranty score calls for one.
pub open spec fn warranty_reason(v: Vehicle, today: Date) -> Option<Seq<char>> {
    if warranty_score_of(v.warranty_exp_date, today) > 700 {
        match v.warranty_exp_date {
            Some(e) => {
                let d = e.days - today.days;
                if d > 0 {
                    Some("Warranty expires in "@ + decimal(d as nat) + " days"@)
                } else {
                    Some("Warranty has expired"@)
                }
            },
            None => None,
        }
    } else {
        None
    }
}

/// The service clause of the narrative, if the service score calls for one.
pub open spec fn service_reason(v: Vehicle, today: Date) -> Option<Seq<char>> {
    if service_score_of(v.last_service_date, today) > 700 {
        match v.last_service_date {
            Some(l) => Some(
                "Last service was "@ + decimal((today.days - l.days) as nat) + " days ago"@,
            ),
            None => Some("No service record found"@),
        }
    } else {
        None
    }
}

/// All clauses that apply, joined in order; a routine reminder when none does.
pub open spec fn reasons_text(w: Option<Seq<char>>, s: Option<Seq<char>>) -> Seq<char> {
    match (w, s) {
        (Some(a), Some(b)) => a + ", "@ + b,
        (Some(a), None) => a,
        (None, Some(b)) => b,
        (None, None) => "Routine maintenance reminder"@,
    }
}

pub open spec fn why_now_text(v: Vehicle, today: Date) -> Seq<char> {
    "Customer should be contacted because: "@ + reasons_text(
        warranty_reason(v, today),
        service_reason(v, today),
    ) + ". This is an optimal time to reach out and provide value."@
}

pub open spec fn stressor_word(t: Option<StressorType>) -> Seq<char> {
    match t {
        Some(t) => t.label_spec(),
        None => "maintenance"@,
    }
}

pub open spec fn script_text(name: Seq<char>, t: Option<StressorType>) -> Seq<char> {
    "Hi "@ + name
        + ", this is [Your Name] from [Dealership]. I wanted to reach out because your vehicle's "@
        + stressor_word(t) + SCRIPT_TAIL@
}

/// The part of the call script after the stressor.
pub const SCRIPT_TAIL: &'static str =
    " is coming up. We'd love to help ensure your vehicle stays in great condition. Would you be available for a quick conversation about scheduling a service appointment? We can work around your schedule and make sure everything is taken care of.";

/// What the scoring engine derives from `v` on the date `today`.
pub open spec fn lead_scores_of(v: Vehicle, today: Date, r: LeadScores) -> bool {
    let w = warranty_score_of(v.warranty_exp_date, today);
    let s = service_score_of(v.last_service_date, today);
    let st = stressor_score_of(w, s);
    let sus = susceptibility_of(v.customer_email is Some, v.customer_zip is Some);
    let u = urgency_score_of(w, s, st, sus, TELEMATIC_PLACEHOLDER);
    &&& r.warranty_score == w
    &&& r.stressor_score == st
    &&& r.susceptibility_score == sus
    &&& r.telematic_score == TELEMATIC_PLACEHOLDER
    &&& !r.has_telematic
    &&& r.stressor_type == Some(stressor_type_of(w, s))
    &&& r.urgency_score == u
    &&& r.call_by_date.days == today.days + call_by_offset(u)
    &&& r.why_now@ == why_now_text(v, today)
    &&& r.suggested_script@ == script_text(v.customer_name@, r.stressor_type)
}

/// Warranty score: expired 0.0, 0–30 days 1.0, 31–60 days 0.8, 61–90 days 0.6,
/// later 0.3, no date 0.0.
pub fn warranty_score(exp: Option<Date>, today: Date) -> (r: u32)
    ensures
        r == warranty_score_of(exp, today),
        r <= SCORE_MAX,
{
    match exp {
        Some(e) => {
            let days = today.days_until(e);
            if days < 0 {
                0
            } else if days <= 30 {
                1000
            } else if days <= 60 {
                800
            } else if days <= 90 {
                600
            } else {
                300
            }
        },
        None => 0,
    }
}

/// Service score: over a year 0.9, over 180 days 0.7, over 90 days 0.5,
/// otherwise 0.2, no record 0.8.
pub fn service_score(last: Option<Date>, today: Date) -> (r: u32)
    ensures
        r == service_score_of(last, today),
        r <= SCORE_MAX,
{
    match last {
        Some(l) => {
            let days = l.days_until(today);
            if days > 365 {
                900
            } else if days > 180 {
                700
            } else if days > 90 {
                500
            } else {
                200
            }
        },
        None => 800,
    }
}

fn cap(x: u32) -> (r: u32)
    ensures
        r == capped(x as int),
{
    if x > SCORE_MAX {
        SCORE_MAX
    } else {
        x
    }
}

pub fn stressor_score(warranty: u32, service: u32) -> (r: u32)
    requires
        warranty <= SCORE_MAX,
        service <= SCORE_MAX,
    ensures
        r == stressor_score_of(warranty, service),
        r <= SCORE_MAX,
{
    cap((600 * warranty + 400 * service) / 1000)
}

pub fn stressor_type(warranty: u32, service: u32) -> (r: StressorType)
    ensures
        r == stressor_type_of(warranty, service),
{
    if warranty > 700 {
        StressorType::WarrantyExpiring
    } else if service > 700 {
        StressorType::ServiceOverdue
    } else if warranty > 500 && service > 500 {
        StressorType::MultipleConcerns
    } else {
        StressorType::MaintenanceReminder
    }
}

pub fn susceptibility_score(has_email: bool, has_zip: bool) -> (r: u32)
    ensures
        r == susceptibility_of(has_email, has_zip),
{
    if has_email && has_zip {
        800
    } else if has_email || has_zip {
        500
    } else {
        300
    }
}

pub fn urgency_score(
    warranty: u32,
    service: u32,
    stressor: u32,
    susceptibility: u32,
    telematic: u32,
) -> (r: u32)
    requires
        warranty <= SCORE_MAX,
        service <= SCORE_MAX,
        stressor <= SCORE_MAX,
        susceptibility <= SCORE_MAX,
        telematic <= SCORE_MAX,
    ensures
        r == urgency_score_of(warranty, service, stressor, susceptibility, telematic),
        r <= SCORE_MAX,
{
    cap(
        (300 * warranty + 300 * service + 200 * stressor + 100 * susceptibility + 100 * telematic)
            / 1000,
    )
}

/// Days until the customer should be called: 1, 3, 7 or 14 as urgency falls.
pub fn days_until_call(urgency: u32) -> (r: i32)
    ensures
        r == call_by_offset(urgency),
{
    if urgency > 800 {
        1
    } else if urgency > 600 {
        3
    } else if urgency > 400 {
        7
    } else {
        14
    }
}

/// The narrative of why the customer should be contacted now.
fn generate_why_now(vehicle: &Vehicle, today: Date, warranty_score: u32, service_score: u32) -> (r:
    String)
    requires
        warranty_score == warranty_score_of(vehicle.warranty_exp_date, today),
        service_score == service_score_of(vehicle.last_service_date, today),
    ensures
        r@ == why_now_text(*vehicle, today),
{
    let mut warranty_clause: Option<String> = None;
    if warranty_score > 700 {
        if let Some(exp) = vehicle.warranty_exp_date {
            let days = today.days_until(exp);
            if days > 0 {
                let mut c = String::from_str("Warranty expires in ");
                let n = decimal_text(days as u64);
                c.append(n.as_str());
                c.append(" days");
                warranty_clause = Some(c);
            } else {
                warranty_clause = Some(String::from_str("Warranty has expired"));
            }
        }
    }
    let mut service_clause: Option<String> = None;
    if service_score > 700 {
        match vehicle.last_service_date {
            Some(last) => {
                let days = last.days_until(today);
                let mut c = String::from_str("Last service was ");
                let n = decimal_text(days as u64);
                c.append(n.as_str());
                c.append(" days ago");
                service_clause = Some(c);
            },
            None => {
                service_clause = Some(String::from_str("No service record found"));
            },
        }
    }
    let mut text = String::from_str("Customer should be contacted because: ");
    match (warranty_clause, service_clause) {
        (Some(a), Some(b)) => {
            text.append(a.as_str());
            text.append(", ");
            text.append(b.as_str());
        },
        (Some(a), None) => {
            text.append(a.as_str());
        },
        (None, Some(b)) => {
            text.append(b.as_str());
        },
        (None, None) => {
            text.append("Routine maintenance reminder");
        },
    }
    text.append(". This is an optimal time to reach out and provide value.");
    text
}

/// The suggested call script for the customer `customer_name`.
fn generate_script(customer_name: &String, stressor_type: Option<StressorType>) -> (r: String)
    ensures
        r@ == script_text(customer_name@, stressor_type),
{
    let mut text = String::from_str("Hi ");
    text.append(customer_name.as_str());
    text.append(
        ", this is [Your Name] from [Dealership]. I wanted to reach out because your vehicle's ",
    );
    match stressor_type {
        Some(t) => {
            let label = t.label();
            text.append(label.as_str());
        },
        None => {
            text.append("maintenance");
        },
    }
    text.append(SCRIPT_TAIL);
    text
}

/// Scores `vehicle` as of the date `today`.
pub fn calculate_lead_scores(vehicle: &Vehicle, today: Date) -> (r: LeadScores)
    requires
        today.wf(),
    ensures
        lead_scores_of(*vehicle, today, r),
        r.urgency_score <= SCORE_MAX,
        r.stressor_score <= SCORE_MAX,
        r.call_by_date.days > today.days,
{
    let warranty = warranty_score(vehicle.warranty_exp_date, today);
    let service = service_score(vehicle.last_service_date, today);
    let stressor = stressor_score(warranty, service);
    let kind = Some(stressor_type(warranty, service));
    let susceptibility = susceptibility_score(
        vehicle.customer_email.is_some(),
        vehicle.customer_zip.is_some(),
    );
    let has_telematic = false;
    let telematic = TELEMATIC_PLACEHOLDER;
    let urgency = urgency_score(warranty, service, stressor, susceptibility, telematic);
    let call_by_date = today.plus_days(days_until_call(urgency));
    let why_now = generate_why_now(vehicle, today, warranty, service);
    let suggested_script = generate_script(&vehicle.customer_name, kind);
    LeadScores {
        urgency_score: urgency,
        stressor_score: stressor,
        warranty_score: warranty,
        susceptibility_score: susceptibility,
        telematic_score: telematic,
        has_telematic,
        stressor_type: kind,
        why_now,
        call_by_date,
        suggested_script,
    }
}

/// Scores `vehicle` as of today's date in UTC.
pub fn calculate_lead_scores_today(vehicle: &Vehicle) -> (r: LeadScores)
    ensures
        exists|today: Date| today.wf() && #[trigger] lead_scores_of(*vehicle, today, r),
{
    let today = today_utc();
    calculate_lead_scores(vehicle, today)
}

/// Urgency and stressor scores never leave `[0.0, 1.0]`, even when every
/// sub-score is at its maximum.
pub proof fn lemma_scores_within_unit_range(
    warranty: u32,
    service: u32,
    susceptibility: u32,
    telematic: u32,
)
    requires
        warranty <= SCORE_MAX,
        service <= SCORE_MAX,
        susceptibility <= SCORE_MAX,
        telematic <= SCORE_MAX,
    ensures
        0 <= stressor_score_of(warranty, service) <= SCORE_MAX,
        0 <= urgency_score_of(
            warranty,
            service,
            stressor_score_of(warranty, service),
            susceptibility,
            telematic,
        ) <= SCORE_MAX,
{
}

/// The call-by date always falls after today, and of two leads scored on
/// the same day, the more urgent one is never to be called later.
pub proof fn lemma_call_by_sooner_when_more_urgent(
    v1: Vehicle,
    v2: Vehicle,
    today: Date,
    s1: LeadScores,
    s2: LeadScores,
)
    requires
        lead_scores_of(v1, today, s1),
        lead_scores_of(v2, today, s2),
        s1.urgency_score <= s2.urgency_score,
    ensures
        today.days < s1.call_by_date.days,
        today.days < s2.call_by_date.days <= s1.call_by_date.days,
{
}

} // verus!
