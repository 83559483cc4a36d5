use stressor_leads::date::Date;
use stressor_leads::models::Vehicle;
use stressor_leads::scoring::{
    calculate_lead_scores, calculate_lead_scores_today, days_until_call, service_score,
    stressor_score, stressor_type, susceptibility_score, urgency_score, warranty_score,
    StressorType,
};

const TODAY: i32 = 739_000;

fn today() -> Date {
    Date::from_days(TODAY)
}

fn day(offset: i32) -> Option<Date> {
    Some(Date::from_days(TODAY + offset))
}

fn vehicle(
    warranty: Option<Date>,
    last_service: Option<Date>,
    email: Option<&str>,
    zip: Option<&str>,
) -> Vehicle {
    Vehicle {
        upload_id: 7,
        dealer_id: 3,
        vin: "1HGCM82633A004352".to_string(),
        warranty_exp_date: warranty,
        customer_name: "Dana Reyes".to_string(),
        customer_phone: "555-0100".to_string(),
        customer_email: email.map(|s| s.to_string()),
        customer_zip: zip.map(|s| s.to_string()),
        last_service_date: last_service,
    }
}

#[test]
fn warranty_brackets() {
    assert_eq!(warranty_score(day(-1), today()), 0);
    assert_eq!(warranty_score(day(-400), today()), 0);
    assert_eq!(warranty_score(day(0), today()), 1000);
    assert_eq!(warranty_score(day(30), today()), 1000);
    assert_eq!(warranty_score(day(31), today()), 800);
    assert_eq!(warranty_score(day(60), today()), 800);
    assert_eq!(warranty_score(day(61), today()), 600);
    assert_eq!(warranty_score(day(90), today()), 600);
    assert_eq!(warranty_score(day(91), today()), 300);
    assert_eq!(warranty_score(None, today()), 0);
}

#[test]
fn service_brackets() {
    assert_eq!(service_score(day(-366), today()), 900);
    assert_eq!(service_score(day(-365), today()), 700);
    assert_eq!(service_score(day(-181), today()), 700);
    assert_eq!(service_score(day(-180), today()), 500);
    assert_eq!(service_score(day(-91), today()), 500);
    assert_eq!(service_score(day(-90), today()), 200);
    assert_eq!(service_score(day(0), today()), 200);
    assert_eq!(service_score(day(5), today()), 200);
    assert_eq!(service_score(None, today()), 800);
}

#[test]
fn combined_scores_are_capped_at_one() {
    assert_eq!(stressor_score(1000, 1000), 1000);
    assert_eq!(urgency_score(1000, 1000, 1000, 1000, 1000), 1000);
    assert_eq!(stressor_score(0, 0), 0);
    assert_eq!(urgency_score(0, 0, 0, 0, 0), 0);
    assert_eq!(stressor_score(1000, 800), 920);
    assert_eq!(stressor_score(600, 500), 560);
}

#[test]
fn stressor_type_rules_in_order() {
    assert_eq!(stressor_type(800, 900), StressorType::WarrantyExpiring);
    assert_eq!(stressor_type(600, 800), StressorType::ServiceOverdue);
    assert_eq!(stressor_type(600, 700), StressorType::MultipleConcerns);
    assert_eq!(stressor_type(600, 500), StressorType::MaintenanceReminder);
    assert_eq!(stressor_type(300, 200), StressorType::MaintenanceReminder);
    assert_eq!(StressorType::MultipleConcerns.label(), "Multiple Concerns");
}

#[test]
fn susceptibility_from_contact_data() {
    assert_eq!(susceptibility_score(true, true), 800);
    assert_eq!(susceptibility_score(true, false), 500);
    assert_eq!(susceptibility_score(false, true), 500);
    assert_eq!(susceptibility_score(false, false), 300);
}

#[test]
fn call_by_offsets_shrink_with_urgency() {
    assert_eq!(days_until_call(1000), 1);
    assert_eq!(days_until_call(801), 1);
    assert_eq!(days_until_call(800), 3);
    assert_eq!(days_until_call(601), 3);
    assert_eq!(days_until_call(600), 7);
    assert_eq!(days_until_call(401), 7);
    assert_eq!(days_until_call(400), 14);
    assert_eq!(days_until_call(0), 14);
    let mut previous = days_until_call(0);
    for u in 0..=1000 {
        let d = days_until_call(u);
        assert!(d >= 1 && d <= previous);
        previous = d;
    }
}

#[test]
fn warranty_soon_and_no_service_record() {
    let v = vehicle(day(10), None, Some("dana@example.com"), Some("94110"));
    let s = calculate_lead_scores(&v, today());
    assert_eq!(s.warranty_score, 1000);
    assert_eq!(service_score(None, today()), 800);
    assert_eq!(s.stressor_score, 920);
    assert_eq!(s.stressor_type, Some(StressorType::WarrantyExpiring));
    assert_eq!(s.susceptibility_score, 800);
    assert_eq!(s.telematic_score, 100);
    assert!(!s.has_telematic);
    assert_eq!(s.urgency_score, 300 + 240 + 184 + 80 + 10);
    assert_eq!(s.call_by_date, Date::from_days(TODAY + 1));
    assert_eq!(
        s.why_now,
        "Customer should be contacted because: Warranty expires in 10 days, No service record found. This is an optimal time to reach out and provide value."
    );
    assert_eq!(
        s.suggested_script,
        "Hi Dana Reyes, this is [Your Name] from [Dealership]. I wanted to reach out because your vehicle's Warranty Expiring is coming up. We'd love to help ensure your vehicle stays in great condition. Would you be available for a quick conversation about scheduling a service appointment? We can work around your schedule and make sure everything is taken care of."
    );
}

#[test]
fn overdue_service_names_days_since() {
    let v = vehicle(day(200), day(-400), None, None);
    let s = calculate_lead_scores(&v, today());
    assert_eq!(s.warranty_score, 300);
    assert_eq!(s.stressor_score, 540);
    assert_eq!(s.stressor_type, Some(StressorType::ServiceOverdue));
    assert_eq!(s.susceptibility_score, 300);
    assert_eq!(s.urgency_score, 90 + 270 + 108 + 30 + 10);
    assert_eq!(s.call_by_date, Date::from_days(TODAY + 7));
    assert_eq!(
        s.why_now,
        "Customer should be contacted because: Last service was 400 days ago. This is an optimal time to reach out and provide value."
    );
}

#[test]
fn warranty_ending_today_reads_expired() {
    let v = vehicle(day(0), day(-10), Some("a@b.c"), None);
    let s = calculate_lead_scores(&v, today());
    assert_eq!(s.warranty_score, 1000);
    assert_eq!(
        s.why_now,
        "Customer should be contacted because: Warranty has expired. This is an optimal time to reach out and provide value."
    );
}

#[test]
fn routine_reminder_when_nothing_urgent() {
    let v = vehicle(day(-5), day(-20), None, Some("10001"));
    let s = calculate_lead_scores(&v, today());
    assert_eq!(s.warranty_score, 0);
    assert_eq!(s.stressor_score, 80);
    assert_eq!(s.stressor_type, Some(StressorType::MaintenanceReminder));
    assert_eq!(s.urgency_score, 60 + 16 + 50 + 10);
    assert_eq!(s.call_by_date, Date::from_days(TODAY + 14));
    assert_eq!(
        s.why_now,
        "Customer should be contacted because: Routine maintenance reminder. This is an optimal time to reach out and provide value."
    );
    assert!(s.suggested_script.contains("your vehicle's Maintenance Reminder is coming up"));
}

#[test]
fn multiple_concerns_for_medium_warranty_and_service() {
    let v = vehicle(day(75), day(-200), None, None);
    let s = calculate_lead_scores(&v, today());
    assert_eq!(s.warranty_score, 600);
    assert_eq!(s.stressor_type, Some(StressorType::MultipleConcerns));
}

#[test]
fn scoring_against_the_clock_calls_after_today() {
    let v = vehicle(None, None, None, None);
    let s = calculate_lead_scores_today(&v);
    assert_eq!(s.warranty_score, 0);
    assert_eq!(s.stressor_score, 320);
    assert!(s.urgency_score <= 1000);
}
