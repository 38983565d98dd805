use octo_influx::model::{
    Account, Agreement, ConsumptionRecord, ElectricityMeterPoint, GasMeterPoint, Meter,
    NumericValue, Property, RateRecord,
};
use octo_influx::orchestrator::{Orchestrator, Task, WriteOutcome};
use octo_influx::pattern::extract_product_code;
use octo_influx::point::{map_consumption, map_consumption_page, map_rate, map_rate_page};
use octo_influx::MeterKind;

fn property(
    emps: Vec<ElectricityMeterPoint>,
    gmps: Vec<GasMeterPoint>,
) -> Property {
    Property {
        address_line_1: "1 Example Street".to_string(),
        electricity_meter_points: emps,
        gas_meter_points: gmps,
    }
}

fn emp(mpan: &str, tariffs: Vec<&str>, serials: Vec<&str>) -> ElectricityMeterPoint {
    ElectricityMeterPoint {
        mpan: mpan.to_string(),
        agreements: tariffs
            .into_iter()
            .map(|t| Agreement { tariff_code: t.to_string() })
            .collect(),
        meters: serials
            .into_iter()
            .map(|s| Meter { serial_number: s.to_string() })
            .collect(),
    }
}

fn expect_consumption(task: &Task, kind: MeterKind, mpxn: &str, serial: &str) {
    match task {
        Task::ImportConsumption { meter_type, mpxn: m, serial: s } => {
            assert_eq!(*meter_type, kind);
            assert_eq!(m, mpxn);
            assert_eq!(s, serial);
        }
        Task::ImportRates { .. } => panic!("expected a consumption task"),
    }
}

fn expect_rates(task: &Task, product: &str, tariff: &str) {
    match task {
        Task::ImportRates { product_code, tariff_code } => {
            assert_eq!(product_code, product);
            assert_eq!(tariff_code, tariff);
        }
        Task::ImportConsumption { .. } => panic!("expected a rates task"),
    }
}

// 2023-01-01T00:00:00Z in nanoseconds since the Unix epoch.
const NEW_YEAR_2023_NS: i64 = 1_672_531_200_000_000_000;

#[test]
fn extracts_first_match_of_pattern() {
    // The first substring of the required shape starts at the `R` of `1R`.
    let found = extract_product_code("E-1R-VAR-22-11-01");
    assert_eq!(found, Some("R-VAR-22-11-01".to_string()));
}

#[test]
fn extracts_whole_code_when_it_matches() {
    let found = extract_product_code("EX-GREEN-22-11-01");
    assert_eq!(found, Some("EX-GREEN-22-11-01".to_string()));
}

#[test]
fn extracts_first_of_two_matches() {
    let found = extract_product_code("X-AB-CD-11-22-33 then EF-GH-44-55-66");
    assert_eq!(found, Some("AB-CD-11-22-33".to_string()));
}

#[test]
fn extracts_exactly_two_digit_groups() {
    // A trailing extra digit is outside the match.
    let found = extract_product_code("ZZ-AB-CD-11-22-334");
    assert_eq!(found, Some("AB-CD-11-22-33".to_string()));
}

#[test]
fn no_match_returns_none() {
    assert_eq!(extract_product_code(""), None);
    assert_eq!(extract_product_code("no product here"), None);
    assert_eq!(extract_product_code("E-1R-var-22-11-01"), None);
    assert_eq!(extract_product_code("AB-CD-12-34"), None);
    assert_eq!(extract_product_code("AB-CD-123-45-67"), None);
}

#[test]
fn meter_kind_labels() {
    assert_eq!(MeterKind::Electricity.label(), "Electricity");
    assert_eq!(MeterKind::Gas.label(), "Gas");
}

#[test]
fn consumption_record_maps_to_expected_point() {
    let record = ConsumptionRecord {
        interval_start: NEW_YEAR_2023_NS,
        consumption: NumericValue { bits: 12.5f64.to_bits() },
    };
    let point = map_consumption("consumption", MeterKind::Electricity, "1234567890", "S1", &record);
    assert_eq!(point.measurement, "consumption");
    assert_eq!(point.timestamp, NEW_YEAR_2023_NS);
    assert_eq!(
        point.tags,
        vec![
            ("meter_type".to_string(), "Electricity".to_string()),
            ("mpxn".to_string(), "1234567890".to_string()),
            ("serial".to_string(), "S1".to_string()),
        ]
    );
    assert_eq!(point.fields.len(), 1);
    assert_eq!(point.fields[0].0, "consumption");
    assert_eq!(f64::from_bits(point.fields[0].1.bits), 12.5);
}

#[test]
fn rate_record_maps_to_expected_point() {
    let record = RateRecord {
        valid_from: NEW_YEAR_2023_NS,
        value_inc_vat: NumericValue { bits: 0.3072f64.to_bits() },
    };
    let point = map_rate("rates", "R-VAR-22-11-01", "E-1R-VAR-22-11-01", &record);
    assert_eq!(point.measurement, "rates");
    assert_eq!(point.timestamp, NEW_YEAR_2023_NS);
    assert_eq!(
        point.tags,
        vec![
            ("product_code".to_string(), "R-VAR-22-11-01".to_string()),
            ("tariff_code".to_string(), "E-1R-VAR-22-11-01".to_string()),
        ]
    );
    assert_eq!(point.fields, vec![("rate".to_string(), record.value_inc_vat)]);
}

#[test]
fn mapped_value_round_trips_exactly() {
    // A value that came in as a 32-bit float widens exactly and comes back
    // exactly; so does a full-precision 64-bit value.
    let narrow = 0.42f32 as f64;
    let wide = 0.123_456_789_012_345_67f64;
    for value in [narrow, wide] {
        let record = ConsumptionRecord {
            interval_start: 7,
            consumption: NumericValue { bits: value.to_bits() },
        };
        let point = map_consumption("consumption", MeterKind::Gas, "M", "S", &record);
        assert_eq!(f64::from_bits(point.fields[0].1.bits), value);
    }
}

#[test]
fn distinct_serials_give_distinct_point_identities() {
    let record = ConsumptionRecord { interval_start: 3, consumption: NumericValue { bits: 0 } };
    let a = map_consumption("consumption", MeterKind::Electricity, "M", "S1", &record);
    let b = map_consumption("consumption", MeterKind::Electricity, "M", "S2", &record);
    assert_eq!(a.timestamp, b.timestamp);
    assert_ne!(a.tags, b.tags);
    let c = map_consumption("consumption", MeterKind::Gas, "M", "S1", &record);
    assert_ne!(a.tags, c.tags);
}

#[test]
fn page_mapping_keeps_every_record_in_order() {
    let records: Vec<ConsumptionRecord> = (0..3)
        .map(|i| ConsumptionRecord {
            interval_start: i * 1800,
            consumption: NumericValue { bits: (i as f64).to_bits() },
        })
        .collect();
    let points = map_consumption_page("consumption", MeterKind::Electricity, "M", "S", &records);
    assert_eq!(points.len(), 3);
    for (i, point) in points.iter().enumerate() {
        assert_eq!(point.timestamp, records[i].interval_start);
        assert_eq!(point.fields[0].1, records[i].consumption);
    }

    let rates: Vec<RateRecord> = (0..2)
        .map(|i| RateRecord { valid_from: i, value_inc_vat: NumericValue { bits: i as u64 } })
        .collect();
    let rate_points = map_rate_page("rates", "P", "T", &rates);
    assert_eq!(rate_points.len(), 2);
    assert_eq!(rate_points[1].timestamp, 1);
}

#[test]
fn plan_for_single_property() {
    let account = Account {
        properties: vec![property(
            vec![emp("1234567890", vec!["E-1R-VAR-22-11-01"], vec!["S1"])],
            vec![],
        )],
    };
    let mut orchestrator = Orchestrator::new(&account);
    let first = orchestrator.next_task().expect("one consumption task");
    expect_consumption(&first, MeterKind::Electricity, "1234567890", "S1");
    orchestrator.advance(WriteOutcome::Succeeded);
    let second = orchestrator.next_task().expect("one rates task");
    expect_rates(&second, "R-VAR-22-11-01", "E-1R-VAR-22-11-01");
    orchestrator.advance(WriteOutcome::Succeeded);
    assert!(orchestrator.next_task().is_none());
    assert!(orchestrator.is_complete());
    assert!(!orchestrator.is_aborted());
}

#[test]
fn last_meter_points_tariff_governs_rate_import() {
    // Two electricity meter points with different current tariffs: the
    // rate import for the property uses the last-processed one's tariff.
    let account = Account {
        properties: vec![property(
            vec![
                emp("1000000000", vec!["E-1R-AAA-11-22-33"], vec!["S1"]),
                emp("2000000000", vec!["E-2R-BBB-44-55-66"], vec!["S2"]),
            ],
            vec![],
        )],
    };
    let mut orchestrator = Orchestrator::new(&account);
    let t1 = orchestrator.next_task().unwrap();
    expect_consumption(&t1, MeterKind::Electricity, "1000000000", "S1");
    orchestrator.advance(WriteOutcome::Succeeded);
    let t2 = orchestrator.next_task().unwrap();
    expect_consumption(&t2, MeterKind::Electricity, "2000000000", "S2");
    orchestrator.advance(WriteOutcome::Succeeded);
    let t3 = orchestrator.next_task().unwrap();
    expect_rates(&t3, "R-BBB-44-55-66", "E-2R-BBB-44-55-66");
}

#[test]
fn last_agreement_is_current() {
    let account = Account {
        properties: vec![property(
            vec![emp(
                "1000000000",
                vec!["E-1R-OLD-11-22-33", "E-1R-NEW-44-55-66"],
                vec![],
            )],
            vec![],
        )],
    };
    let mut orchestrator = Orchestrator::new(&account);
    let task = orchestrator.next_task().unwrap();
    expect_rates(&task, "R-NEW-44-55-66", "E-1R-NEW-44-55-66");
}

#[test]
fn gas_meters_follow_electricity_meters() {
    let account = Account {
        properties: vec![property(
            vec![emp("1234567890", vec!["E-1R-VAR-22-11-01"], vec!["S1"])],
            vec![GasMeterPoint {
                mprn: "987654321".to_string(),
                meters: vec![Meter { serial_number: "G1".to_string() }],
            }],
        )],
    };
    let mut orchestrator = Orchestrator::new(&account);
    let t1 = orchestrator.next_task().unwrap();
    expect_consumption(&t1, MeterKind::Electricity, "1234567890", "S1");
    orchestrator.advance(WriteOutcome::Succeeded);
    let t2 = orchestrator.next_task().unwrap();
    expect_consumption(&t2, MeterKind::Gas, "987654321", "G1");
    orchestrator.advance(WriteOutcome::Succeeded);
    let t3 = orchestrator.next_task().unwrap();
    expect_rates(&t3, "R-VAR-22-11-01", "E-1R-VAR-22-11-01");
}

#[test]
fn write_failure_aborts_the_run() {
    // A failed write stops the run on the spot: the next meter point is
    // never processed and no further task is handed out.
    let account = Account {
        properties: vec![property(
            vec![
                emp("1000000000", vec!["E-1R-AAA-11-22-33"], vec!["S1"]),
                emp("2000000000", vec!["E-2R-BBB-44-55-66"], vec!["S2"]),
            ],
            vec![],
        )],
    };
    let mut orchestrator = Orchestrator::new(&account);
    let first = orchestrator.next_task().unwrap();
    expect_consumption(&first, MeterKind::Electricity, "1000000000", "S1");
    orchestrator.advance(WriteOutcome::Failed);
    assert!(orchestrator.is_aborted());
    assert!(!orchestrator.is_complete());
    assert!(orchestrator.next_task().is_none());
}

#[test]
fn no_agreements_give_empty_tariff_and_product() {
    let account = Account {
        properties: vec![property(vec![emp("1000000000", vec![], vec![])], vec![])],
    };
    let mut orchestrator = Orchestrator::new(&account);
    let task = orchestrator.next_task().unwrap();
    expect_rates(&task, "", "");
}

#[test]
fn unmatched_tariff_gives_empty_product() {
    let account = Account {
        properties: vec![property(vec![emp("1000000000", vec!["SILLY"], vec![])], vec![])],
    };
    let mut orchestrator = Orchestrator::new(&account);
    let task = orchestrator.next_task().unwrap();
    expect_rates(&task, "", "SILLY");
}

#[test]
fn tariff_carries_over_to_later_properties() {
    // A property without electricity meter points inherits the tariff the
    // previous property left behind.
    let account = Account {
        properties: vec![
            property(vec![emp("1000000000", vec!["E-1R-AAA-11-22-33"], vec![])], vec![]),
            property(vec![], vec![]),
        ],
    };
    let mut orchestrator = Orchestrator::new(&account);
    let first = orchestrator.next_task().unwrap();
    expect_rates(&first, "R-AAA-11-22-33", "E-1R-AAA-11-22-33");
    orchestrator.advance(WriteOutcome::Succeeded);
    let second = orchestrator.next_task().unwrap();
    expect_rates(&second, "R-AAA-11-22-33", "E-1R-AAA-11-22-33");
    orchestrator.advance(WriteOutcome::Succeeded);
    assert!(orchestrator.is_complete());
}

#[test]
fn empty_account_completes_immediately() {
    let account = Account { properties: vec![] };
    let orchestrator = Orchestrator::new(&account);
    assert!(orchestrator.next_task().is_none());
    assert!(orchestrator.is_complete());
}
