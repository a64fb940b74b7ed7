use chrono::{Datelike, NaiveDate};
use covidd::api::{
    attributes_from_row, get_current_data, get_full_data, history_from_rows, parse_number,
    populace, population_from_records,
};
use covidd::data::{
    ApiAttributes, ApiFeatures, ApiResponse, Cases, DataPoint, Day, Deaths, Hospitalisations,
    Incidence, Recoveries,
};
use covidd::date_format::{
    day_from_parsed, parse, parse_hyphenated, parse_or_null, to_label, to_text,
};
use covidd::error::DataError;

fn day(year: i32, month: u32, day: u32) -> Day {
    Day { days_from_ce: NaiveDate::from_ymd_opt(year, month, day).unwrap().num_days_from_ce() }
}

fn bare(object_id: u32, date: Option<Day>) -> ApiAttributes {
    ApiAttributes {
        object_id,
        date,
        date_ts: None,
        date_range: None,
        show: false,
        cases_total: None,
        cases_increase: None,
        cases_reported: None,
        deaths_total: None,
        deaths_increase: None,
        recoveries_total: None,
        recoveries_increase: None,
        hospitalisations_total: None,
        hospitalisations_increase: None,
        hospitalisations_beds_in_use: None,
    }
}

#[test]
fn absent_fields_become_zero() {
    let point = DataPoint::try_from(ApiFeatures { attributes: bare(7, Some(day(2020, 12, 24))) })
        .unwrap();
    assert_eq!(point.object_id, 7);
    assert_eq!(point.dates.date, Day { days_from_ce: 737_783 });
    assert_eq!(point.dates.date_ts, 1_608_768_000_000);
    assert_eq!(point.dates.date_range, "");
    assert!(!point.show);
    assert_eq!(point.incidence, Incidence { scaled_cases: 0, population: 1 });
    assert_eq!(point.cases, Cases { total: 0, increase: 0, reported: 0 });
    assert_eq!(point.deaths, Deaths { total: 0, increase: 0 });
    assert_eq!(point.recoveries, Recoveries { total: 0, increase: 0 });
    assert_eq!(point.hospitalisations, Hospitalisations { total: 0, increase: 0, beds_in_use: 0 });
}

#[test]
fn present_fields_are_kept() {
    let mut raw = bare(3, Some(day(2021, 3, 1)));
    raw.date_ts = Some(-5);
    raw.date_range = Some(String::from("22.02.-28.02."));
    raw.show = true;
    raw.cases_total = Some(1);
    raw.cases_increase = Some(2);
    raw.cases_reported = Some(3);
    raw.deaths_total = Some(4);
    raw.deaths_increase = Some(5);
    raw.recoveries_total = Some(6);
    raw.recoveries_increase = Some(7);
    raw.hospitalisations_total = Some(8);
    raw.hospitalisations_increase = Some(9);
    raw.hospitalisations_beds_in_use = Some(u32::MAX);
    let point = DataPoint::try_from(ApiFeatures { attributes: raw }).unwrap();
    assert_eq!(point.dates.date_ts, -5);
    assert_eq!(point.dates.date_range, "22.02.-28.02.");
    assert!(point.show);
    assert_eq!(point.cases, Cases { total: 1, increase: 2, reported: 3 });
    assert_eq!(point.deaths, Deaths { total: 4, increase: 5 });
    assert_eq!(point.recoveries, Recoveries { total: 6, increase: 7 });
    assert_eq!(
        point.hospitalisations,
        Hospitalisations { total: 8, increase: 9, beds_in_use: u32::MAX }
    );
}

#[test]
fn record_without_date_is_refused() {
    let mut raw = bare(1, None);
    raw.cases_total = Some(5);
    assert_eq!(DataPoint::try_from(ApiFeatures { attributes: raw }), Err(DataError::MissingDate));
}

#[test]
fn midnight_counts_from_the_epoch() {
    assert_eq!(day(1970, 1, 1).midnight(), 0);
    assert_eq!(day(1970, 1, 2).midnight(), 86_400_000);
    assert_eq!(day(1969, 12, 31).midnight(), -86_400_000);
    assert_eq!(Day { days_from_ce: i32::MAX }.midnight(), (i32::MAX as i64 - 719_163) * 86_400_000);
    assert_eq!(Day { days_from_ce: i32::MIN }.midnight(), (i32::MIN as i64 - 719_163) * 86_400_000);
    let date = NaiveDate::from_ymd_opt(2020, 12, 24).unwrap();
    assert_eq!(
        day(2020, 12, 24).midnight(),
        date.and_hms_opt(0, 0, 0).unwrap().and_utc().timestamp_millis()
    );
}

#[test]
fn dotted_dates_are_read() {
    assert_eq!(parse("24.12.2020"), Ok(Day { days_from_ce: 737_783 }));
    assert_eq!(parse("01.01.1970"), Ok(Day { days_from_ce: 719_163 }));
    assert_eq!(parse("1.1.0001"), Ok(Day { days_from_ce: 1 }));
    assert_eq!(parse("2020-12-24"), Err(DataError::MalformedField));
    assert_eq!(parse("31.02.2020"), Err(DataError::MalformedField));
    assert_eq!(parse("24.12.2020 "), Err(DataError::MalformedField));
    assert_eq!(parse(""), Err(DataError::MalformedField));
}

#[test]
fn hyphenated_dates_are_read() {
    assert_eq!(parse_hyphenated("2020-12-24"), Ok(Day { days_from_ce: 737_783 }));
    assert_eq!(parse_hyphenated("2020-02-29"), Ok(day(2020, 2, 29)));
    assert_eq!(parse_hyphenated("2021-02-29"), Err(DataError::MalformedField));
    assert_eq!(parse_hyphenated("24.12.2020"), Err(DataError::MalformedField));
}

#[test]
fn missing_dates_may_be_null() {
    assert_eq!(parse_or_null(None), Ok(None));
    assert_eq!(parse_or_null(Some("24.12.2020")), Ok(Some(Day { days_from_ce: 737_783 })));
    assert_eq!(parse_or_null(Some("yesterday")), Err(DataError::MalformedField));
}

#[test]
fn parser_results_are_mapped() {
    assert_eq!(day_from_parsed(Ok(12)), Ok(Day { days_from_ce: 12 }));
    let error = NaiveDate::parse_from_str("x", "%Y").unwrap_err();
    assert_eq!(day_from_parsed(Err(error)), Err(DataError::MalformedField));
}

#[test]
fn numbers_are_decimal_digits() {
    assert_eq!(parse_number("0"), Ok(0));
    assert_eq!(parse_number("007"), Ok(7));
    assert_eq!(parse_number("+15"), Ok(15));
    assert_eq!(parse_number("4294967295"), Ok(u32::MAX));
    assert_eq!(parse_number("4294967296"), Err(DataError::MalformedField));
    assert_eq!(parse_number(""), Err(DataError::MalformedField));
    assert_eq!(parse_number("+"), Err(DataError::MalformedField));
    assert_eq!(parse_number("-1"), Err(DataError::MalformedField));
    assert_eq!(parse_number("-0"), Err(DataError::MalformedField));
    assert_eq!(parse_number("++1"), Err(DataError::MalformedField));
    assert_eq!(parse_number(" 1"), Err(DataError::MalformedField));
    assert_eq!(parse_number("1 "), Err(DataError::MalformedField));
    assert_eq!(parse_number("1_000"), Err(DataError::MalformedField));
    assert_eq!(parse_number("12a"), Err(DataError::MalformedField));
    assert_eq!(parse_number("\u{0663}"), Err(DataError::MalformedField));
    assert_eq!(parse_number("+0000000000000000000000012"), Ok(12));
    assert_eq!(parse_number("99999999999999999999"), Err(DataError::MalformedField));
}

#[test]
fn numbers_are_read_as_std_reads_them() {
    let texts = [
        "", "+", "-", "0", "+0", "-0", "1", "01", "+1", "-1", "1+", "1.0", "1e3", "0x10", " 7",
        "7 ", "４", "4294967295", "4294967296", "04294967295", "42949672950", "429496729",
        "+4294967295", "18446744073709551616", "12\n", "\t12", "1,000", "१२",
    ];
    for text in texts {
        assert_eq!(parse_number(text).ok(), text.parse::<u32>().ok(), "{:?}", text);
    }
    for number in [0u32, 9, 10, 99, 100, 65_535, 65_536, 1_000_000, u32::MAX - 1, u32::MAX] {
        assert_eq!(parse_number(&number.to_string()), Ok(number));
    }
}

fn row(fields: &[&str]) -> Vec<String> {
    fields.iter().map(|f| String::from(*f)).collect()
}

const HEADER: &str = "Datum;a;b;c;Meldedatum;Fallzahl;d;ZuwachsKH;KH;ZuwachsSterbefall;Sterbefall;ZuwachsGenesung;Genesung\n";

#[test]
fn row_of_the_export_is_read() {
    let fields = row(&["2020-03-09", "", "", "", "4", "5", "", "7", "8", "9", "10", "11", "12"]);
    let attributes = attributes_from_row(41, &fields).unwrap();
    let mut expected = bare(41, Some(day(2020, 3, 9)));
    expected.cases_reported = Some(4);
    expected.cases_total = Some(5);
    expected.hospitalisations_increase = Some(7);
    expected.hospitalisations_total = Some(8);
    expected.deaths_increase = Some(9);
    expected.deaths_total = Some(10);
    expected.recoveries_increase = Some(11);
    expected.recoveries_total = Some(12);
    assert_eq!(attributes, expected);
}

#[test]
fn short_or_unreadable_rows_are_malformed() {
    let short = row(&["2020-03-09", "", "", "", "4", "5", "", "7", "8", "9", "10", "11"]);
    assert_eq!(attributes_from_row(1, &short), Err(DataError::MalformedField));
    assert_eq!(attributes_from_row(1, &row(&[])), Err(DataError::MalformedField));
    let good = ["2020-03-09", "", "", "", "4", "5", "", "7", "8", "9", "10", "11", "12"];
    for column in [0usize, 4, 5, 7, 8, 9, 10, 11, 12] {
        let mut fields = row(&good);
        fields[column] = String::from("x");
        assert_eq!(attributes_from_row(1, &fields), Err(DataError::MalformedField));
    }
    for column in [1usize, 2, 3, 6] {
        let mut fields = row(&good);
        fields[column] = String::from("x");
        assert!(attributes_from_row(1, &fields).is_ok());
    }
}

#[test]
fn rows_are_numbered_from_one() {
    let rows = vec![
        row(&["2020-03-09", "", "", "", "4", "5", "", "7", "8", "9", "10", "11", "12"]),
        row(&["2020-03-10", "", "", "", "1", "6", "", "0", "8", "0", "10", "0", "12", "more"]),
    ];
    let points = history_from_rows(&rows).unwrap();
    assert_eq!(points.len(), 2);
    assert_eq!(points[0].object_id, 1);
    assert_eq!(points[1].object_id, 2);
    assert_eq!(points[1].dates.date, day(2020, 3, 10));
    assert_eq!(points[1].dates.date_ts, day(2020, 3, 10).midnight());
    assert_eq!(points[1].cases, Cases { total: 6, increase: 0, reported: 1 });
    assert_eq!(history_from_rows(&vec![]), Ok(vec![]));
    let mut spoiled = rows.clone();
    spoiled[1][5] = String::from("");
    assert_eq!(history_from_rows(&spoiled), Err(DataError::MalformedField));
}

#[test]
fn export_is_read_from_text() {
    let text = format!(
        "{}2020-03-09;;;;4;5;;7;8;9;10;11;12\n2020-03-10;;;;1;6;;0;8;0;10;0;12\n",
        HEADER
    );
    let points = get_full_data(text.as_bytes()).unwrap();
    assert_eq!(points.len(), 2);
    assert_eq!(points[0].object_id, 1);
    assert_eq!(points[0].dates.date, day(2020, 3, 9));
    assert_eq!(points[0].cases, Cases { total: 5, increase: 0, reported: 4 });
    assert_eq!(points[0].deaths, Deaths { total: 10, increase: 9 });
    assert_eq!(points[0].recoveries, Recoveries { total: 12, increase: 11 });
    assert_eq!(points[0].hospitalisations, Hospitalisations { total: 8, increase: 7, beds_in_use: 0 });
    assert_eq!(points[1].cases.total, 6);
    assert_eq!(get_full_data(HEADER.as_bytes()), Ok(vec![]));
    assert_eq!(get_full_data(b""), Ok(vec![]));
}

#[test]
fn spoiled_export_is_malformed() {
    let uneven = format!("{}2020-03-09;;;;4;5;;7;8;9;10;11;12\n2020-03-10;1\n", HEADER);
    assert_eq!(get_full_data(uneven.as_bytes()), Err(DataError::MalformedField));
    let comma = "Datum,x\n2020-03-09,1\n";
    assert_eq!(get_full_data(comma.as_bytes()), Err(DataError::MalformedField));
    let mut bytes = format!("{}2020-03-09;;;;4;5;;7;8;9;10;11;12", HEADER).into_bytes();
    bytes.push(0xff);
    assert_eq!(get_full_data(&bytes), Err(DataError::MalformedField));
}

#[test]
fn population_sums_last_fields() {
    let text = "Stadtteil;m;w;gesamt\nAltstadt;1;2;30000\nNeustadt;x;y;25000\nPlauen;;;+5\n";
    assert_eq!(populace(text.as_bytes()), Ok(55_005));
    assert_eq!(populace(b"head\n"), Ok(0));
    assert_eq!(populace(b"a;b\nx;4294967295\n"), Ok(u32::MAX));
    assert_eq!(populace(b"a;b\nx;4294967295\ny;1\n"), Err(DataError::MalformedField));
    assert_eq!(populace(b"a;b\nx;12\ny;z\n"), Err(DataError::MalformedField));
    assert_eq!(populace(b"a;b\nx;12\ny\n"), Err(DataError::MalformedField));
    assert_eq!(populace(b"a;b\n\xff;12\n"), Ok(12));
    assert_eq!(populace(b"a;b\nx;1\xff\n"), Err(DataError::MalformedField));
}

#[test]
fn population_of_records() {
    let records = vec![vec![b"a".to_vec(), b"10".to_vec()], vec![b"32".to_vec()]];
    assert_eq!(population_from_records(&records), Ok(42));
    assert_eq!(population_from_records(&vec![]), Ok(0));
    assert_eq!(population_from_records(&vec![vec![]]), Err(DataError::MalformedField));
    assert_eq!(
        population_from_records(&vec![vec![b"1".to_vec()], vec![vec![0xc3, 0x28]]]),
        Err(DataError::MalformedField)
    );
}

#[test]
fn feed_is_normalized_in_order() {
    let mut first = bare(10, Some(day(2021, 1, 1)));
    first.cases_increase = Some(4);
    let second = bare(11, Some(day(2021, 1, 2)));
    let response = ApiResponse {
        features: vec![ApiFeatures { attributes: first }, ApiFeatures { attributes: second }],
    };
    let points = get_current_data(response).unwrap();
    assert_eq!(points.len(), 2);
    assert_eq!(points[0].object_id, 10);
    assert_eq!(points[0].cases.increase, 4);
    assert_eq!(points[1].object_id, 11);
    assert_eq!(points[1].dates.date, day(2021, 1, 2));
    assert_eq!(get_current_data(ApiResponse { features: vec![] }), Ok(vec![]));
}

#[test]
fn feed_with_undated_record_is_refused() {
    let response = ApiResponse {
        features: vec![
            ApiFeatures { attributes: bare(10, Some(day(2021, 1, 1))) },
            ApiFeatures { attributes: bare(11, None) },
        ],
    };
    assert_eq!(get_current_data(response), Err(DataError::MissingDate));
}

#[test]
fn days_are_written_as_the_feed_writes_them() {
    assert_eq!(to_text(Day { days_from_ce: 737_783 }), Some(String::from("24.12.2020")));
    assert_eq!(to_text(Day { days_from_ce: 719_163 }), Some(String::from("01.01.1970")));
    assert_eq!(to_text(Day { days_from_ce: i32::MAX }), None);
    assert_eq!(to_text(Day { days_from_ce: i32::MIN }), None);
    for days in [1, 366, 700_000, 737_783, 738_000] {
        let day = Day { days_from_ce: days };
        assert_eq!(parse(&to_text(day).unwrap()), Ok(day));
    }
}

#[test]
fn days_are_labelled_by_day_and_month() {
    assert_eq!(to_label(Day { days_from_ce: 737_783 }), Some(String::from("24.12")));
    assert_eq!(to_label(day(2021, 3, 1)), Some(String::from("01.03")));
    assert_eq!(to_label(Day { days_from_ce: i32::MAX }), None);
}
