use iso4217::{all, alpha3, country, currency_codes, exp, name, num, CurrencyCode};

fn same_record(a: &CurrencyCode, b: &CurrencyCode) -> bool {
    a.alpha3 == b.alpha3
        && a.countries == b.countries
        && a.exp == b.exp
        && a.name == b.name
        && a.num == b.num
}

#[test]
fn get_all() {
    assert!(!all().is_empty());
}

#[test]
fn get_by_alpha3() {
    assert!(alpha3("ALL").is_some());
}

#[test]
fn get_by_country() {
    assert!(!country("AL").is_empty());
}

#[test]
fn get_by_exp() {
    assert!(!exp(2).is_empty());
}

#[test]
fn get_by_name() {
    assert!(name("Albanian lek").is_some());
}

#[test]
fn get_by_num() {
    assert!(num("008").is_some());
}

#[test]
fn backwards_compats() {
    // Test the number of total CurrencyCodes.
    assert!(all().len() == 155);
}

// One or several territory codes can be in a record's `countries`.
#[test]
fn countrycode_countries() {
    let currency_multiple: CurrencyCode = alpha3("AUD").unwrap();
    let currency_single: CurrencyCode = alpha3("ALL").unwrap();

    assert!(currency_multiple.countries.len() > 1);
    assert!(currency_single.countries.len() == 1);
}

#[test]
fn all_is_stable_across_calls() {
    let first = all();
    let second = all();
    assert_eq!(first.len(), 155);
    assert_eq!(first.len(), second.len());
    for (a, b) in first.iter().zip(second.iter()) {
        assert!(same_record(a, b));
    }
}

#[test]
fn all_is_the_table_sorted_by_numeric_code() {
    let codes = all();
    let table = currency_codes();
    assert_eq!(codes.len(), table.len());
    for (a, b) in codes.iter().zip(table.iter()) {
        assert!(same_record(a, b));
    }
    for pair in codes.windows(2) {
        assert!(pair[0].num < pair[1].num);
    }
    assert_eq!(codes[0].alpha3, "ALL");
    assert_eq!(codes[154].alpha3, "BRL");
}

#[test]
fn alpha3_round_trip_over_the_table() {
    for record in all() {
        let found = alpha3(record.alpha3).unwrap();
        if record.alpha3 == "SGD" {
            assert_eq!(found.name, "Singapore dollar");
            assert_eq!(found.num, "702");
        } else {
            assert_eq!(found.num, record.num);
            assert_eq!(found.name, record.name);
            assert!(same_record(&found, &record));
        }
    }
}

#[test]
fn sgd_resolves_to_the_singapore_dollar_every_time() {
    for _ in 0..3 {
        let found = alpha3("SGD").unwrap();
        assert_eq!(found.name, "Singapore dollar");
        assert_eq!(found.countries, vec!["BN", "SG"]);
    }
    let pound = name("Sudanese pound").unwrap();
    assert_eq!(pound.alpha3, "SGD");
    assert_eq!(pound.num, "938");
}

#[test]
fn albanian_lek_by_alpha3() {
    let lek = alpha3("ALL").unwrap();
    assert_eq!(lek.alpha3, "ALL");
    assert_eq!(lek.num, "008");
    assert_eq!(lek.name, "Albanian lek");
    assert_eq!(lek.exp, 2);
    assert_eq!(lek.countries, vec!["AL"]);
}

#[test]
fn num_finds_the_same_record_as_alpha3() {
    let by_num = num("008").unwrap();
    let by_alpha = alpha3("ALL").unwrap();
    assert!(same_record(&by_num, &by_alpha));
}

#[test]
fn name_finds_the_same_record_as_alpha3() {
    let by_name = name("Albanian lek").unwrap();
    let by_alpha = alpha3("ALL").unwrap();
    assert!(same_record(&by_name, &by_alpha));
}

#[test]
fn country_al_gives_only_the_lek() {
    let found = country("AL");
    assert_eq!(found.len(), 1);
    assert_eq!(found[0].alpha3, "ALL");
    assert_eq!(found[0].name, "Albanian lek");
}

#[test]
fn country_au_includes_the_australian_dollar() {
    let found = country("AU");
    let aud = found.iter().find(|c| c.alpha3 == "AUD").unwrap();
    assert!(aud.countries.len() > 1);
    for t in ["AU", "CC", "CX", "KI"] {
        assert!(aud.countries.contains(&t));
    }
}

#[test]
fn country_with_two_currencies_keeps_table_order() {
    let found = country("PA");
    let codes: Vec<&str> = found.iter().map(|c| c.alpha3).collect();
    assert_eq!(codes, vec!["PAB", "USD"]);
}

#[test]
fn exp_zero_includes_the_yen_and_no_exponent_two() {
    let found = exp(0);
    assert!(!found.is_empty());
    let yen = found.iter().find(|c| c.alpha3 == "JPY").unwrap();
    assert_eq!(yen.name, "Japanese yen");
    assert_eq!(yen.exp, 0);
    assert!(found.iter().all(|c| c.exp == 0));
    assert!(found.iter().all(|c| c.alpha3 != "USD"));
    assert_eq!(found.len(), 18);
}

#[test]
fn exp_counts_cover_the_table() {
    assert_eq!(exp(0).len(), 18);
    assert_eq!(exp(1).len(), 2);
    assert_eq!(exp(2).len(), 129);
    assert_eq!(exp(3).len(), 6);
    assert!(exp(4).is_empty());
    assert!(exp(-1).is_empty());
}

#[test]
fn unknown_alpha3_is_none() {
    assert!(alpha3("ZZZ").is_none());
    assert!(alpha3("").is_none());
}

#[test]
fn alpha3_is_case_sensitive() {
    assert!(alpha3("all").is_none());
    assert!(alpha3("All").is_none());
}

#[test]
fn num_keeps_leading_zeros() {
    assert!(num("8").is_none());
    assert!(num("08").is_none());
    assert_eq!(num("392").unwrap().alpha3, "JPY");
}

#[test]
fn unknown_name_is_none() {
    assert!(name("albanian lek").is_none());
    assert!(name("Albanian lek ").is_none());
}

#[test]
fn unknown_country_is_empty() {
    assert!(country("ZZ").is_empty());
    assert!(country("").is_empty());
}

#[test]
fn country_listed_twice_in_one_record_gives_it_once() {
    let found = country("NL");
    assert_eq!(found.len(), 1);
    assert_eq!(found[0].alpha3, "EUR");
}

#[test]
fn non_ascii_name_is_found() {
    let zloty = name("Polish złoty").unwrap();
    assert_eq!(zloty.alpha3, "PLN");
    assert_eq!(zloty.num, "985");
}

#[test]
fn num_round_trip_over_the_table() {
    for record in all() {
        let found = num(record.num).unwrap();
        assert!(same_record(&found, &record));
    }
}
