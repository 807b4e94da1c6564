use pastpapers::naming::{parse_year_opt, year_to_prefix, year_to_string, year_to_url, YearArgError, YearGroup};
use pastpapers::{DEFAULT_START_YEAR, END_YEAR, FIRST_YEAR, PREFIX_CUTOFF_YEAR};

#[test]
fn year_label_is_prev_dash_curr() {
    assert_eq!(year_to_string(2020), "19-20");
    assert_eq!(year_to_string(2017), "16-17");
    assert_eq!(year_to_string(2021), "20-21");
}

#[test]
fn year_label_wraps_to_99_at_century() {
    assert_eq!(year_to_string(2000), "99-00");
    assert_eq!(year_to_string(2001), "00-01");
}

#[test]
fn year_label_is_five_characters_over_the_interval() {
    let mut year = FIRST_YEAR;
    while year < END_YEAR {
        let label = year_to_string(year);
        assert_eq!(label.len(), 5);
        assert_eq!(label.as_bytes()[2], b'-');
        year += 1;
    }
}

#[test]
fn index_url_embeds_the_label() {
    assert_eq!(
        year_to_url(2020),
        "https://exams.doc.ic.ac.uk/pastpapers/papers.19-20/"
    );
    assert_eq!(
        year_to_url(2000),
        "https://exams.doc.ic.ac.uk/pastpapers/papers.99-00/"
    );
}

#[test]
fn prefix_switches_exactly_at_the_cutoff() {
    let mut year = FIRST_YEAR;
    while year < END_YEAR {
        let y1 = year_to_prefix(year, YearGroup::Y1);
        let y2 = year_to_prefix(year, YearGroup::Y2);
        if year >= PREFIX_CUTOFF_YEAR {
            assert_eq!(y1, "COMP4");
            assert_eq!(y2, "COMP5");
        } else {
            assert_eq!(y1, "C1");
            assert_eq!(y2, "C2");
        }
        year += 1;
    }
}

#[test]
fn parse_accepts_years_inside_the_interval() {
    assert_eq!(parse_year_opt("2000"), Ok(2000));
    assert_eq!(parse_year_opt("2017"), Ok(2017));
    assert_eq!(parse_year_opt("2021"), Ok(2021));
    assert_eq!(parse_year_opt("2017"), Ok(DEFAULT_START_YEAR));
}

#[test]
fn parse_rejects_years_outside_the_interval() {
    assert_eq!(parse_year_opt("1999"), Err(YearArgError::OutOfRange));
    assert_eq!(parse_year_opt("2022"), Err(YearArgError::OutOfRange));
    assert_eq!(parse_year_opt("0"), Err(YearArgError::OutOfRange));
    assert_eq!(
        parse_year_opt("99999999999999999999999"),
        Err(YearArgError::OutOfRange)
    );
}

#[test]
fn parse_rejects_non_numeric_input() {
    assert_eq!(parse_year_opt(""), Err(YearArgError::NotAYear));
    assert_eq!(parse_year_opt("abc"), Err(YearArgError::NotAYear));
    assert_eq!(parse_year_opt("20x7"), Err(YearArgError::NotAYear));
    assert_eq!(parse_year_opt("-2017"), Err(YearArgError::NotAYear));
    assert_eq!(parse_year_opt("2017 "), Err(YearArgError::NotAYear));
}

#[test]
fn out_of_range_message_states_the_interval() {
    let msg = YearArgError::OutOfRange.message();
    assert_eq!(msg, "papers are only available for the years 2000 to 2021");
    assert_eq!(
        YearArgError::NotAYear.message(),
        "not a calendar year"
    );
}
