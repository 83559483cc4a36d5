use stressor_leads::leads::{
    query_id, query_limit, scored_leads_query, DEFAULT_LEAD_LIMIT, SCORED_LEAD_SELECT,
};

#[test]
fn listing_query_numbers_its_parameters() {
    let base = format!("{} WHERE v.dealer_id = $1", SCORED_LEAD_SELECT);
    assert_eq!(
        scored_leads_query(false, false),
        format!("{} ORDER BY sl.urgency_score DESC LIMIT $2", base)
    );
    assert_eq!(
        scored_leads_query(true, false),
        format!("{} AND sl.upload_id = $2 ORDER BY sl.urgency_score DESC LIMIT $3", base)
    );
    assert_eq!(
        scored_leads_query(false, true),
        format!("{} AND sl.urgency_score >= $2 ORDER BY sl.urgency_score DESC LIMIT $3", base)
    );
    assert_eq!(
        scored_leads_query(true, true),
        format!(
            "{} AND sl.upload_id = $2 AND sl.urgency_score >= $3 ORDER BY sl.urgency_score DESC LIMIT $4",
            base
        )
    );
}

#[test]
fn query_parameters_parse_or_fall_back() {
    assert_eq!(query_limit(None), DEFAULT_LEAD_LIMIT);
    assert_eq!(query_limit(Some("25")), 25);
    assert_eq!(query_limit(Some("abc")), 100);
    assert_eq!(query_limit(Some("99999999999")), 100);
    assert_eq!(query_id(Some("-7")), Some(-7));
    assert_eq!(query_id(Some("4x")), None);
    assert_eq!(query_id(None), None);
}
