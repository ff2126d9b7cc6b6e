//! The table itself: every currency of ISO 4217 that is in circulation,
//! sorted by numeric code.
//!
//! Left out are the funds codes (BOV, CLF, COU, MXV, USN, USS, UYI), the
//! complementary and special settlement units (CHE, CHW, CNH, XFU, XSU, XUA,
//! XDR), the bond market units (XBA, XBB, XBC, XBD), the precious metals
//! (XAG, XAU, XPD, XPT), the testing and no-currency codes (XTS, XXX) and
//! ZWD. Territory codes are those of ISO 3166.
//!
//! The table holds "SGD" twice: for the Singapore dollar and for the
//! Sudanese pound. Lookups by alpha code meet the Singapore dollar first.
use crate::{Currency, CurrencyCode, records, territory_views};
use vstd::prelude::*;

verus! {

/// How many records the table holds.
pub const CURRENCY_COUNT: usize = 155;

/// The position of the Singapore dollar, the first record with the alpha
/// code "SGD".
pub const SINGAPORE_DOLLAR: usize = 101;

/// The position of the Sudanese pound, the second record with the alpha
/// code "SGD".
pub const SUDANESE_POUND: usize = 130;

/// A record of the table, as a value.
pub open spec fn currency(
    alpha3: Seq<char>,
    countries: Seq<Seq<char>>,
    exp: i8,
    name: Seq<char>,
    num: Seq<char>,
) -> Currency {
    Currency { alpha3, countries, exp, name, num }
}

/// The record at position `i` of the table.
#[verifier::opaque]
pub open spec fn entry(i: int) -> Currency {
    if i == 0 {
        currency("ALL"@, seq!["AL"@], 2, "Albanian lek"@, "008"@)
    } else if i == 1 {
        currency("DZD"@, seq!["DZ"@], 2, "Algerian dinar"@, "012"@)
    } else if i == 2 {
        currency("ARS"@, seq!["AR"@], 2, "Argentine peso"@, "032"@)
    } else if i == 3 {
        currency(
            "AUD"@,
            seq!["AU"@, "CC"@, "CX"@, "HM"@, "KI"@, "NF"@, "NR"@, "TV"@],
            2,
            "Australian dollar"@,
            "036"@,
        )
    } else if i == 4 {
        currency("BSD"@, seq!["BS"@], 2, "Bahamian dollar"@, "044"@)
    } else if i == 5 {
        currency("BHD"@, seq!["BH"@], 2, "Bahraini dinar"@, "048"@)
    } else if i == 6 {
        currency("BDT"@, seq!["BD"@], 2, "Bangladeshi taka"@, "050"@)
    } else if i == 7 {
        currency("AMD"@, seq!["AM"@], 2, "Armenian dram"@, "051"@)
    } else if i == 8 {
        currency("BBD"@, seq!["BB"@], 2, "Barbados dollar"@, "052"@)
    } else if i == 9 {
        currency("BMD"@, seq!["BM"@], 2, "Bermudian dollar"@, "060"@)
    } else if i == 10 {
        currency("BTN"@, seq!["BT"@], 2, "Bhutanese ngultrum"@, "064"@)
    } else if i == 11 {
        currency("BOB"@, seq!["BO"@], 2, "Boliviano"@, "068"@)
    } else if i == 12 {
        currency("BWP"@, seq!["BW"@], 2, "Botswana pula"@, "072"@)
    } else if i == 13 {
        currency("BZD"@, seq!["BZ"@], 2, "Belize dollar"@, "084"@)
    } else if i == 14 {
        currency("SBD"@, seq!["SB"@], 2, "Soloman Islands dollar"@, "090"@)
    } else if i == 15 {
        currency("BND"@, seq!["BN"@, "SG"@], 2, "Brunei dollar"@, "096"@)
    } else if i == 16 {
        currency("MMK"@, seq!["MM"@], 2, "Myanmar kyat"@, "104"@)
    } else if i == 17 {
        currency("BIF"@, seq!["BI"@], 0, "Burundian franc"@, "108"@)
    } else if i == 18 {
        currency("KHR"@, seq!["KH"@], 2, "Cambodian riel"@, "116"@)
    } else if i == 19 {
        currency("CAD"@, seq!["CA"@], 2, "Canadian dollar"@, "124"@)
    } else if i == 20 {
        currency("CVE"@, seq!["CV"@], 0, "Cape Verde escudo"@, "132"@)
    } else if i == 21 {
        currency("KYD"@, seq!["KY"@], 2, "Cayman Islands dollar"@, "136"@)
    } else if i == 22 {
        currency("LKR"@, seq!["LK"@], 2, "Sri Lankan rupee"@, "144"@)
    } else if i == 23 {
        currency("CLP"@, seq!["CL"@], 0, "Chilean peso"@, "152"@)
    } else if i == 24 {
        currency("CNY"@, seq!["CN"@], 2, "Chinese yuan"@, "156"@)
    } else if i == 25 {
        currency("COP"@, seq!["CO"@], 2, "Colombian peso"@, "170"@)
    } else if i == 26 {
        currency("KMF"@, seq!["KM"@], 0, "Comoro franc"@, "174"@)
    } else if i == 27 {
        currency("CRC"@, seq!["CR"@], 2, "Costa Rican colon"@, "188"@)
    } else if i == 28 {
        currency("HRK"@, seq!["HR"@], 2, "Croatian kuna"@, "191"@)
    } else if i == 29 {
        currency("CUP"@, seq!["CU"@], 2, "Cuban peso"@, "192"@)
    } else if i == 30 {
        currency("CZK"@, seq!["CZ"@], 2, "Czech koruna"@, "203"@)
    } else if i == 31 {
        currency("DKK"@, seq!["DK"@, "FO"@, "GL"@], 2, "Danish krone"@, "208"@)
    } else if i == 32 {
        currency("DOP"@, seq!["DO"@], 2, "Dominican peso"@, "214"@)
    } else if i == 33 {
        currency("ETB"@, seq!["ET"@], 2, "Ethiopian birr"@, "230"@)
    } else if i == 34 {
        currency("ERN"@, seq!["ER"@], 2, "Eritrean nakfa"@, "232"@)
    } else if i == 35 {
        currency("FKP"@, seq!["FK"@], 2, "Falkland Islands pound"@, "238"@)
    } else if i == 36 {
        currency("FJD"@, seq!["FJ"@], 2, "Fiji dollar"@, "242"@)
    } else if i == 37 {
        currency("DJF"@, seq!["DJ"@], 0, "Djiboutian franc"@, "262"@)
    } else if i == 38 {
        currency("GMD"@, seq!["GM"@], 2, "Gambian dalasi"@, "270"@)
    } else if i == 39 {
        currency("GIP"@, seq!["GI"@], 2, "Gibraltar pound"@, "292"@)
    } else if i == 40 {
        currency("GTQ"@, seq!["GT"@], 2, "Guatemalan quetzal"@, "320"@)
    } else if i == 41 {
        currency("GNF"@, seq!["GN"@], 0, "Guinean franc"@, "324"@)
    } else if i == 42 {
        currency("GYD"@, seq!["GY"@], 2, "Guyanese dollar"@, "328"@)
    } else if i == 43 {
        currency("HTG"@, seq!["HT"@], 2, "Haitian gourde"@, "332"@)
    } else if i == 44 {
        currency("HNL"@, seq!["HN"@], 2, "Honduran lempira"@, "340"@)
    } else if i == 45 {
        currency("HKD"@, seq!["HK"@, "MO"@], 2, "Hong Kong dollar"@, "344"@)
    } else if i == 46 {
        currency("HUF"@, seq!["HU"@], 2, "Hungarian forint"@, "348"@)
    } else if i == 47 {
        currency("ISK"@, seq!["IS"@], 0, "Icelandic króna"@, "352"@)
    } else if i == 48 {
        currency("INR"@, seq!["BT"@, "IN"@, "NP"@, "ZW"@], 2, "Indian rupee"@, "356"@)
    } else if i == 49 {
        currency("IDR"@, seq!["ID"@], 2, "Indonesian rupiah"@, "360"@)
    } else if i == 50 {
        currency("IRR"@, seq!["IR"@], 2, "Iranian rial"@, "364"@)
    } else if i == 51 {
        currency("IQD"@, seq!["IQ"@], 3, "Iraqi dinar"@, "368"@)
    } else if i == 52 {
        currency("ILS"@, seq!["IL"@, "PS"@], 2, "Israeli new shekel"@, "376"@)
    } else if i == 53 {
        currency("KMD"@, seq!["JM"@], 2, "Jamaican dollar"@, "388"@)
    } else if i == 54 {
        currency("JPY"@, seq!["JP"@], 0, "Japanese yen"@, "392"@)
    } else if i == 55 {
        currency("KZT"@, seq!["KZ"@], 2, "Kazakhstani tenge"@, "398"@)
    } else if i == 56 {
        currency("JOD"@, seq!["JO"@], 3, "Jordanian dinar"@, "400"@)
    } else if i == 57 {
        currency("KES"@, seq!["KE"@], 2, "Kenyan shilling"@, "404"@)
    } else if i == 58 {
        currency("KPW"@, seq!["KP"@], 2, "North Korean won"@, "408"@)
    } else if i == 59 {
        currency("KRW"@, seq!["KR"@], 0, "South Korean won"@, "410"@)
    } else if i == 60 {
        currency("KWD"@, seq!["KW"@], 3, "Kuwaiti dinar"@, "414"@)
    } else if i == 61 {
        currency("KGS"@, seq!["KG"@], 2, "Kyrgyzstani som"@, "417"@)
    } else if i == 62 {
        currency("LAK"@, seq!["LA"@], 2, "Lao kip"@, "418"@)
    } else if i == 63 {
        currency("LBP"@, seq!["LB"@], 2, "Lebanese pound"@, "422"@)
    } else if i == 64 {
        currency("LSL"@, seq!["LS"@], 2, "Lesotho loti"@, "426"@)
    } else if i == 65 {
        currency("LRD"@, seq!["LR"@], 2, "Liberian dollar"@, "430"@)
    } else if i == 66 {
        currency("LYD"@, seq!["LY"@], 3, "Libyan dinar"@, "434"@)
    } else if i == 67 {
        currency("MOP"@, seq!["MO"@], 2, "Macanese pataca"@, "446"@)
    } else if i == 68 {
        currency("MWK"@, seq!["MW"@], 2, "Malawian kwacha"@, "454"@)
    } else if i == 69 {
        currency("MYR"@, seq!["MY"@], 2, "Malaysian ringgit"@, "458"@)
    } else if i == 70 {
        currency("MVR"@, seq!["MV"@], 2, "Maldivian rufiyaa"@, "462"@)
    } else if i == 71 {
        currency("MRO"@, seq!["MR"@], 1, "Mauritanian ouguiya"@, "478"@)
    } else if i == 72 {
        currency("MUR"@, seq!["MU"@], 2, "Mauritian rupee"@, "480"@)
    } else if i == 73 {
        currency("MXN"@, seq!["MX"@], 2, "Mexican peso"@, "484"@)
    } else if i == 74 {
        currency("MNT"@, seq!["MN"@], 2, "Mongolian tögrög"@, "496"@)
    } else if i == 75 {
        currency("MDL"@, seq!["MD"@], 2, "Moldovan leu"@, "498"@)
    } else if i == 76 {
        currency("MAD"@, seq!["MA"@], 2, "Moroccan dirham"@, "504"@)
    } else if i == 77 {
        currency("OMR"@, seq!["OM"@], 3, "Omani rial"@, "512"@)
    } else if i == 78 {
        currency("NAD"@, seq!["NA"@], 2, "Namibian dollar"@, "516"@)
    } else if i == 79 {
        currency("NPR"@, seq!["NP"@], 2, "Nepalese rupee"@, "524"@)
    } else if i == 80 {
        currency("ANG"@, seq!["CW"@, "SX"@], 2, "Netherlands Antillean guilder"@, "532"@)
    } else if i == 81 {
        currency("AWG"@, seq!["AW"@], 2, "Aruban florin"@, "533"@)
    } else if i == 82 {
        currency("VUV"@, seq!["VU"@], 0, "Vanuatu vatu"@, "548"@)
    } else if i == 83 {
        currency(
            "NZD"@,
            seq!["AQ"@, "CK"@, "NU"@, "NZ"@, "PN"@, "TK"@],
            2,
            "New Zealand dollar"@,
            "554"@,
        )
    } else if i == 84 {
        currency("NIO"@, seq!["NI"@], 2, "Nicaraguan córdoba"@, "558"@)
    } else if i == 85 {
        currency("NGN"@, seq!["NG"@], 2, "Nigerian naira"@, "566"@)
    } else if i == 86 {
        currency("NOK"@, seq!["AQ"@, "BV"@, "NO"@, "SJ"@], 2, "Norwegian krone"@, "578"@)
    } else if i == 87 {
        currency("PKR"@, seq!["PK"@], 2, "Pakistani rupee"@, "586"@)
    } else if i == 88 {
        currency("PAB"@, seq!["PA"@], 2, "Panamanian balboa"@, "590"@)
    } else if i == 89 {
        currency("PGK"@, seq!["PG"@], 2, "Papua New Guinean kina"@, "598"@)
    } else if i == 90 {
        currency("PYG"@, seq!["PY"@], 0, "Paraguayan guaraní"@, "600"@)
    } else if i == 91 {
        currency("PEN"@, seq!["PE"@], 2, "Peruvian Sol"@, "604"@)
    } else if i == 92 {
        currency("PHP"@, seq!["PH"@], 2, "Philippine peso"@, "608"@)
    } else if i == 93 {
        currency("QAR"@, seq!["QA"@], 2, "Qatari riyal"@, "634"@)
    } else if i == 94 {
        currency("RUB"@, seq!["GE-AB"@, "RU"@, "UA-43"@], 2, "Russian ruble"@, "643"@)
    } else if i == 95 {
        currency("RWF"@, seq!["RW"@], 0, "Rwandan franc"@, "646"@)
    } else if i == 96 {
        currency("SHP"@, seq!["SH-AC"@, "SH-SH"@], 2, "Saint Helena pound"@, "654"@)
    } else if i == 97 {
        currency("STD"@, seq!["ST"@], 2, "São Tomé and Príncipe dobra"@, "678"@)
    } else if i == 98 {
        currency("SAR"@, seq!["SA"@], 2, "Saudi riyal"@, "682"@)
    } else if i == 99 {
        currency("SCR"@, seq!["SC"@], 2, "Seychelles rupee"@, "690"@)
    } else if i == 100 {
        currency("SLL"@, seq!["SL"@], 2, "Sierra Leonean leone"@, "694"@)
    } else if i == 101 {
        currency("SGD"@, seq!["BN"@, "SG"@], 2, "Singapore dollar"@, "702"@)
    } else if i == 102 {
        currency("VND"@, seq!["VN"@], 0, "Vietnamese dong"@, "704"@)
    } else if i == 103 {
        currency("SOS"@, seq!["SO"@], 2, "Somali shilling"@, "706"@)
    } else if i == 104 {
        currency("ZAR"@, seq!["ZA"@], 2, "South African rand"@, "710"@)
    } else if i == 105 {
        currency("SSP"@, seq!["SS"@], 2, "South Sudeanese pound"@, "728"@)
    } else if i == 106 {
        currency("SZL"@, seq!["SZ"@], 2, "Swazi lilangeni"@, "748"@)
    } else if i == 107 {
        currency("SEK"@, seq!["SE"@], 2, "Swedish krona/kronor"@, "752"@)
    } else if i == 108 {
        currency("CHF"@, seq!["CH"@, "LI"@], 2, "Swiss franc"@, "756"@)
    } else if i == 109 {
        currency("SYP"@, seq!["SY"@], 2, "Syrian pound"@, "760"@)
    } else if i == 110 {
        currency("THB"@, seq!["KH"@, "LA"@, "MM"@, "TH"@], 2, "Thai baht"@, "764"@)
    } else if i == 111 {
        currency("TOP"@, seq!["TO"@], 2, "Tongan pa'anga"@, "776"@)
    } else if i == 112 {
        currency("TTD"@, seq!["TT"@], 2, "Trinidad and Tobago dollar"@, "780"@)
    } else if i == 113 {
        currency("AED"@, seq!["AE"@], 2, "United Arab Emirates dirham"@, "784"@)
    } else if i == 114 {
        currency("TND"@, seq!["TN"@], 3, "Tunisian dinar"@, "788"@)
    } else if i == 115 {
        currency("UGX"@, seq!["UG"@], 0, "Ugandan shilling"@, "800"@)
    } else if i == 116 {
        currency("MKD"@, seq!["MK"@], 2, "Macedonian denar"@, "807"@)
    } else if i == 117 {
        currency("EGP"@, seq!["EG"@], 2, "Egyptian pound"@, "818"@)
    } else if i == 118 {
        currency(
            "GBP"@,
            seq!["GG"@, "GS"@, "IM"@, "IO"@, "JE"@, "SH-TA"@, "UK"@],
            2,
            "Pound sterling"@,
            "826"@,
        )
    } else if i == 119 {
        currency("TZS"@, seq!["TZ"@], 2, "Tanzanian shilling"@, "834"@)
    } else if i == 120 {
        currency(
            "USD"@,
            seq![
                "AS"@, "BB"@, "BM"@, "BQ"@, "EC"@, "FM"@, "GU"@, "HT"@, "IO"@, "MH"@, "MP"@, "PA"@,
                "PR"@, "PW"@, "SV"@, "TC"@, "TL"@, "US"@, "VG"@, "VI"@, "ZW"@,
            ],
            2,
            "United States dollar"@,
            "840"@,
        )
    } else if i == 121 {
        currency("UYU"@, seq!["UY"@], 2, "Uruguayan peso"@, "858"@)
    } else if i == 122 {
        currency("UZS"@, seq!["UZ"@], 2, "Uzbekistan som"@, "860"@)
    } else if i == 123 {
        currency("WST"@, seq!["WS"@], 2, "Samoan tala"@, "882"@)
    } else if i == 124 {
        currency("YER"@, seq!["YE"@], 2, "Yemeni rial"@, "886"@)
    } else if i == 125 {
        currency("TWD"@, seq!["TW"@], 2, "New Taiwan dollar"@, "901"@)
    } else if i == 126 {
        currency("CUC"@, seq!["CU"@], 2, "Cuban convertible peso"@, "931"@)
    } else if i == 127 {
        currency("TMT"@, seq!["TM"@], 2, "Turkmenistani manat"@, "934"@)
    } else if i == 128 {
        currency("GHS"@, seq!["GH"@], 2, "Ghanaian cedi"@, "936"@)
    } else if i == 129 {
        currency("VEF"@, seq!["VE"@], 2, "Venezuelan bolivar"@, "937"@)
    } else if i == 130 {
        currency("SGD"@, seq!["SD"@], 2, "Sudanese pound"@, "938"@)
    } else if i == 131 {
        currency("RSD"@, seq!["RS"@], 2, "Serbian dinar"@, "941"@)
    } else if i == 132 {
        currency("MZN"@, seq!["MZ"@], 2, "Mozambican metical"@, "943"@)
    } else if i == 133 {
        currency("AZN"@, seq!["AZ"@], 2, "Azerbaijani manat"@, "944"@)
    } else if i == 134 {
        currency("RON"@, seq!["RO"@], 2, "Romanian leu"@, "946"@)
    } else if i == 135 {
        currency("TRY"@, seq!["TR"@], 2, "Turkish lira"@, "949"@)
    } else if i == 136 {
        currency(
            "XAF"@,
            seq!["CM"@, "CF"@, "CG"@, "GA"@, "GQ"@, "TD"@],
            0,
            "CFA franc BEAC"@,
            "950"@,
        )
    } else if i == 137 {
        currency(
            "XCD"@,
            seq!["AI"@, "AG"@, "DM"@, "GD"@, "KN"@, "LC"@, "MS"@, "VC"@],
            2,
            "East Caribbean dollar"@,
            "951"@,
        )
    } else if i == 138 {
        currency(
            "XOF"@,
            seq!["BF"@, "BJ"@, "CI"@, "GW"@, "ML"@, "NE"@, "SN"@, "TG"@],
            0,
            "CFA franc BCEAO"@,
            "952"@,
        )
    } else if i == 139 {
        currency("XPF"@, seq!["NC"@, "PF"@, "WF"@], 0, "CFP franc"@, "953"@)
    } else if i == 140 {
        currency("ZMW"@, seq!["ZM"@], 2, "Zambian kwacha"@, "967"@)
    } else if i == 141 {
        currency("SRD"@, seq!["SR"@], 2, "Surinamese dollar"@, "968"@)
    } else if i == 142 {
        currency("MGA"@, seq!["MG"@], 1, "Malagasy ariary"@, "969"@)
    } else if i == 143 {
        currency("AFN"@, seq!["AF"@], 2, "Afghan afghani"@, "971"@)
    } else if i == 144 {
        currency("TJS"@, seq!["TJ"@], 2, "Tajikstani somoni"@, "972"@)
    } else if i == 145 {
        currency("AOA"@, seq!["AO"@], 2, "Angolan kwanza"@, "973"@)
    } else if i == 146 {
        currency("BYR"@, seq!["BY"@], 0, "Belarusian ruble"@, "974"@)
    } else if i == 147 {
        currency("BGN"@, seq!["BG"@], 2, "Bulgarian lev"@, "975"@)
    } else if i == 148 {
        currency("CDF"@, seq!["CD"@], 2, "Congolese franc"@, "976"@)
    } else if i == 149 {
        currency("BAM"@, seq!["BA"@], 2, "Bosnia and Herzegovina convertible mark"@, "977"@)
    } else if i == 150 {
        currency(
            "EUR"@,
            seq![
                "AD"@, "AT"@, "BE"@, "BL"@, "CY"@, "DE"@, "EE"@, "ES"@, "FI"@, "FR"@, "GP"@, "GR"@,
                "IE"@, "IT"@, "LT"@, "LU"@, "LV"@, "MC"@, "ME"@, "MQ"@, "MT"@, "NL"@, "NL"@, "PM"@,
                "PT"@, "RE"@, "SI"@, "SK"@, "VA"@, "XK"@, "YT"@,
            ],
            2,
            "Euro"@,
            "978"@,
        )
    } else if i == 151 {
        currency("UAH"@, seq!["UA"@], 2, "Ukrainian hryvnia"@, "980"@)
    } else if i == 152 {
        currency("GEL"@, seq!["GE"@], 2, "Georgian lari"@, "981"@)
    } else if i == 153 {
        currency("PLN"@, seq!["PL"@], 2, "Polish złoty"@, "985"@)
    } else {
        currency("BRL"@, seq!["BR"@], 2, "Brazilian real"@, "986"@)
    }
}

/// The whole table, in its canonical order.
pub open spec fn table() -> Seq<Currency> {
    Seq::new(CURRENCY_COUNT as nat, |i: int| entry(i))
}

/// Builds one record from its fields.
fn code(
    alpha3: &'static str,
    countries: Vec<&'static str>,
    exp: i8,
    name: &'static str,
    num: &'static str,
) -> (r: CurrencyCode<'static>)
    ensures
        r@ == currency(alpha3@, territory_views(countries@), exp, name@, num@),
{
    CurrencyCode { alpha3, countries, exp, name, num }
}

/// Builds the record at position `i` of the table.
fn code_at(i: usize) -> (r: CurrencyCode<'static>)
    requires
        i < CURRENCY_COUNT,
    ensures
        r@.alpha3 == entry(i as int).alpha3,
        r@.countries =~= entry(i as int).countries,
        r@.exp == entry(i as int).exp,
        r@.name == entry(i as int).name,
        r@.num == entry(i as int).num,
{
    proof {
        reveal(entry);
    }
    if i == 0 {
        code("ALL", vec!["AL"], 2, "Albanian lek", "008")
    } else if i == 1 {
        code("DZD", vec!["DZ"], 2, "Algerian dinar", "012")
    } else if i == 2 {
        code("ARS", vec!["AR"], 2, "Argentine peso", "032")
    } else if i == 3 {
        code(
            "AUD",
            vec!["AU", "CC", "CX", "HM", "KI", "NF", "NR", "TV"],
            2,
            "Australian dollar",
            "036",
        )
    } else if i == 4 {
        code("BSD", vec!["BS"], 2, "Bahamian dollar", "044")
    } else if i == 5 {
        code("BHD", vec!["BH"], 2, "Bahraini dinar", "048")
    } else if i == 6 {
        code("BDT", vec!["BD"], 2, "Bangladeshi taka", "050")
    } else if i == 7 {
        code("AMD", vec!["AM"], 2, "Armenian dram", "051")
    } else if i == 8 {
        code("BBD", vec!["BB"], 2, "Barbados dollar", "052")
    } else if i == 9 {
        code("BMD", vec!["BM"], 2, "Bermudian dollar", "060")
    } else if i == 10 {
        code("BTN", vec!["BT"], 2, "Bhutanese ngultrum", "064")
    } else if i == 11 {
        code("BOB", vec!["BO"], 2, "Boliviano", "068")
    } else if i == 12 {
        code("BWP", vec!["BW"], 2, "Botswana pula", "072")
    } else if i == 13 {
        code("BZD", vec!["BZ"], 2, "Belize dollar", "084")
    } else if i == 14 {
        code("SBD", vec!["SB"], 2, "Soloman Islands dollar", "090")
    } else if i == 15 {
        code("BND", vec!["BN", "SG"], 2, "Brunei dollar", "096")
    } else if i == 16 {
        code("MMK", vec!["MM"], 2, "Myanmar kyat", "104")
    } else if i == 17 {
        code("BIF", vec!["BI"], 0, "Burundian franc", "108")
    } else if i == 18 {
        code("KHR", vec!["KH"], 2, "Cambodian riel", "116")
    } else if i == 19 {
        code("CAD", vec!["CA"], 2, "Canadian dollar", "124")
    } else if i == 20 {
        code("CVE", vec!["CV"], 0, "Cape Verde escudo", "132")
    } else if i == 21 {
        code("KYD", vec!["KY"], 2, "Cayman Islands dollar", "136")
    } else if i == 22 {
        code("LKR", vec!["LK"], 2, "Sri Lankan rupee", "144")
    } else if i == 23 {
        code("CLP", vec!["CL"], 0, "Chilean peso", "152")
    } else if i == 24 {
        code("CNY", vec!["CN"], 2, "Chinese yuan", "156")
    } else if i == 25 {
        code("COP", vec!["CO"], 2, "Colombian peso", "170")
    } else if i == 26 {
        code("KMF", vec!["KM"], 0, "Comoro franc", "174")
    } else if i == 27 {
        code("CRC", vec!["CR"], 2, "Costa Rican colon", "188")
    } else if i == 28 {
        code("HRK", vec!["HR"], 2, "Croatian kuna", "191")
    } else if i == 29 {
        code("CUP", vec!["CU"], 2, "Cuban peso", "192")
    } else if i == 30 {
        code("CZK", vec!["CZ"], 2, "Czech koruna", "203")
    } else if i == 31 {
        code("DKK", vec!["DK", "FO", "GL"], 2, "Danish krone", "208")
    } else if i == 32 {
        code("DOP", vec!["DO"], 2, "Dominican peso", "214")
    } else if i == 33 {
        code("ETB", vec!["ET"], 2, "Ethiopian birr", "230")
    } else if i == 34 {
        code("ERN", vec!["ER"], 2, "Eritrean nakfa", "232")
    } else if i == 35 {
        code("FKP", vec!["FK"], 2, "Falkland Islands pound", "238")
    } else if i == 36 {
        code("FJD", vec!["FJ"], 2, "Fiji dollar", "242")
    } else if i == 37 {
        code("DJF", vec!["DJ"], 0, "Djiboutian franc", "262")
    } else if i == 38 {
        code("GMD", vec!["GM"], 2, "Gambian dalasi", "270")
    } else if i == 39 {
        code("GIP", vec!["GI"], 2, "Gibraltar pound", "292")
    } else if i == 40 {
        code("GTQ", vec!["GT"], 2, "Guatemalan quetzal", "320")
    } else if i == 41 {
        code("GNF", vec!["GN"], 0, "Guinean franc", "324")
    } else if i == 42 {
        code("GYD", vec!["GY"], 2, "Guyanese dollar", "328")
    } else if i == 43 {
        code("HTG", vec!["HT"], 2, "Haitian gourde", "332")
    } else if i == 44 {
        code("HNL", vec!["HN"], 2, "Honduran lempira", "340")
    } else if i == 45 {
        code("HKD", vec!["HK", "MO"], 2, "Hong Kong dollar", "344")
    } else if i == 46 {
        code("HUF", vec!["HU"], 2, "Hungarian forint", "348")
    } else if i == 47 {
        code("ISK", vec!["IS"], 0, "Icelandic króna", "352")
    } else if i == 48 {
        code("INR", vec!["BT", "IN", "NP", "ZW"], 2, "Indian rupee", "356")
    } else if i == 49 {
        code("IDR", vec!["ID"], 2, "Indonesian rupiah", "360")
    } else if i == 50 {
        code("IRR", vec!["IR"], 2, "Iranian rial", "364")
    } else if i == 51 {
        code("IQD", vec!["IQ"], 3, "Iraqi dinar", "368")
    } else if i == 52 {
        code("ILS", vec!["IL", "PS"], 2, "Israeli new shekel", "376")
    } else if i == 53 {
        code("KMD", vec!["JM"], 2, "Jamaican dollar", "388")
    } else if i == 54 {
        code("JPY", vec!["JP"], 0, "Japanese yen", "392")
    } else if i == 55 {
        code("KZT", vec!["KZ"], 2, "Kazakhstani tenge", "398")
    } else if i == 56 {
        code("JOD", vec!["JO"], 3, "Jordanian dinar", "400")
    } else if i == 57 {
        code("KES", vec!["KE"], 2, "Kenyan shilling", "404")
    } else if i == 58 {
        code("KPW", vec!["KP"], 2, "North Korean won", "408")
    } else if i == 59 {
        code("KRW", vec!["KR"], 0, "South Korean won", "410")
    } else if i == 60 {
        code("KWD", vec!["KW"], 3, "Kuwaiti dinar", "414")
    } else if i == 61 {
        code("KGS", vec!["KG"], 2, "Kyrgyzstani som", "417")
    } else if i == 62 {
        code("LAK", vec!["LA"], 2, "Lao kip", "418")
    } else if i == 63 {
        code("LBP", vec!["LB"], 2, "Lebanese pound", "422")
    } else if i == 64 {
        code("LSL", vec!["LS"], 2, "Lesotho loti", "426")
    } else if i == 65 {
        code("LRD", vec!["LR"], 2, "Liberian dollar", "430")
    } else if i == 66 {
        code("LYD", vec!["LY"], 3, "Libyan dinar", "434")
    } else if i == 67 {
        code("MOP", vec!["MO"], 2, "Macanese pataca", "446")
    } else if i == 68 {
        code("MWK", vec!["MW"], 2, "Malawian kwacha", "454")
    } else if i == 69 {
        code("MYR", vec!["MY"], 2, "Malaysian ringgit", "458")
    } else if i == 70 {
        code("MVR", vec!["MV"], 2, "Maldivian rufiyaa", "462")
    } else if i == 71 {
        code("MRO", vec!["MR"], 1, "Mauritanian ouguiya", "478")
    } else if i == 72 {
        code("MUR", vec!["MU"], 2, "Mauritian rupee", "480")
    } else if i == 73 {
        code("MXN", vec!["MX"], 2, "Mexican peso", "484")
    } else if i == 74 {
        code("MNT", vec!["MN"], 2, "Mongolian tögrög", "496")
    } else if i == 75 {
        code("MDL", vec!["MD"], 2, "Moldovan leu", "498")
    } else if i == 76 {
        code("MAD", vec!["MA"], 2, "Moroccan dirham", "504")
    } else if i == 77 {
        code("OMR", vec!["OM"], 3, "Omani rial", "512")
    } else if i == 78 {
        code("NAD", vec!["NA"], 2, "Namibian dollar", "516")
    } else if i == 79 {
        code("NPR", vec!["NP"], 2, "Nepalese rupee", "524")
    } else if i == 80 {
        code("ANG", vec!["CW", "SX"], 2, "Netherlands Antillean guilder", "532")
    } else if i == 81 {
        code("AWG", vec!["AW"], 2, "Aruban florin", "533")
    } else if i == 82 {
        code("VUV", vec!["VU"], 0, "Vanuatu vatu", "548")
    } else if i == 83 {
        code("NZD", vec!["AQ", "CK", "NU", "NZ", "PN", "TK"], 2, "New Zealand dollar", "554")
    } else if i == 84 {
        code("NIO", vec!["NI"], 2, "Nicaraguan córdoba", "558")
    } else if i == 85 {
        code("NGN", vec!["NG"], 2, "Nigerian naira", "566")
    } else if i == 86 {
        code("NOK", vec!["AQ", "BV", "NO", "SJ"], 2, "Norwegian krone", "578")
    } else if i == 87 {
        code("PKR", vec!["PK"], 2, "Pakistani rupee", "586")
    } else if i == 88 {
        code("PAB", vec!["PA"], 2, "Panamanian balboa", "590")
    } else if i == 89 {
        code("PGK", vec!["PG"], 2, "Papua New Guinean kina", "598")
    } else if i == 90 {
        code("PYG", vec!["PY"], 0, "Paraguayan guaraní", "600")
    } else if i == 91 {
        code("PEN", vec!["PE"], 2, "Peruvian Sol", "604")
    } else if i == 92 {
        code("PHP", vec!["PH"], 2, "Philippine peso", "608")
    } else if i == 93 {
        code("QAR", vec!["QA"], 2, "Qatari riyal", "634")
    } else if i == 94 {
        code("RUB", vec!["GE-AB", "RU", "UA-43"], 2, "Russian ruble", "643")
    } else if i == 95 {
        code("RWF", vec!["RW"], 0, "Rwandan franc", "646")
    } else if i == 96 {
        code("SHP", vec!["SH-AC", "SH-SH"], 2, "Saint Helena pound", "654")
    } else if i == 97 {
        code("STD", vec!["ST"], 2, "São Tomé and Príncipe dobra", "678")
    } else if i == 98 {
        code("SAR", vec!["SA"], 2, "Saudi riyal", "682")
    } else if i == 99 {
        code("SCR", vec!["SC"], 2, "Seychelles rupee", "690")
    } else if i == 100 {
        code("SLL", vec!["SL"], 2, "Sierra Leonean leone", "694")
    } else if i == 101 {
        code("SGD", vec!["BN", "SG"], 2, "Singapore dollar", "702")
    } else if i == 102 {
        code("VND", vec!["VN"], 0, "Vietnamese dong", "704")
    } else if i == 103 {
        code("SOS", vec!["SO"], 2, "Somali shilling", "706")
    } else if i == 104 {
        code("ZAR", vec!["ZA"], 2, "South African rand", "710")
    } else if i == 105 {
        code("SSP", vec!["SS"], 2, "South Sudeanese pound", "728")
    } else if i == 106 {
        code("SZL", vec!["SZ"], 2, "Swazi lilangeni", "748")
    } else if i == 107 {
        code("SEK", vec!["SE"], 2, "Swedish krona/kronor", "752")
    } else if i == 108 {
        code("CHF", vec!["CH", "LI"], 2, "Swiss franc", "756")
    } else if i == 109 {
        code("SYP", vec!["SY"], 2, "Syrian pound", "760")
    } else if i == 110 {
        code("THB", vec!["KH", "LA", "MM", "TH"], 2, "Thai baht", "764")
    } else if i == 111 {
        code("TOP", vec!["TO"], 2, "Tongan pa'anga", "776")
    } else if i == 112 {
        code("TTD", vec!["TT"], 2, "Trinidad and Tobago dollar", "780")
    } else if i == 113 {
        code("AED", vec!["AE"], 2, "United Arab Emirates dirham", "784")
    } else if i == 114 {
        code("TND", vec!["TN"], 3, "Tunisian dinar", "788")
    } else if i == 115 {
        code("UGX", vec!["UG"], 0, "Ugandan shilling", "800")
    } else if i == 116 {
        code("MKD", vec!["MK"], 2, "Macedonian denar", "807")
    } else if i == 117 {
        code("EGP", vec!["EG"], 2, "Egyptian pound", "818")
    } else if i == 118 {
        code("GBP", vec!["GG", "GS", "IM", "IO", "JE", "SH-TA", "UK"], 2, "Pound sterling", "826")
    } else if i == 119 {
        code("TZS", vec!["TZ"], 2, "Tanzanian shilling", "834")
    } else if i == 120 {
        code(
            "USD",
            vec![
                "AS", "BB", "BM", "BQ", "EC", "FM", "GU", "HT", "IO", "MH", "MP", "PA", "PR", "PW",
                "SV", "TC", "TL", "US", "VG", "VI", "ZW",
            ],
            2,
            "United States dollar",
            "840",
        )
    } else if i == 121 {
        code("UYU", vec!["UY"], 2, "Uruguayan peso", "858")
    } else if i == 122 {
        code("UZS", vec!["UZ"], 2, "Uzbekistan som", "860")
    } else if i == 123 {
        code("WST", vec!["WS"], 2, "Samoan tala", "882")
    } else if i == 124 {
        code("YER", vec!["YE"], 2, "Yemeni rial", "886")
    } else if i == 125 {
        code("TWD", vec!["TW"], 2, "New Taiwan dollar", "901")
    } else if i == 126 {
        code("CUC", vec!["CU"], 2, "Cuban convertible peso", "931")
    } else if i == 127 {
        code("TMT", vec!["TM"], 2, "Turkmenistani manat", "934")
    } else if i == 128 {
        code("GHS", vec!["GH"], 2, "Ghanaian cedi", "936")
    } else if i == 129 {
        code("VEF", vec!["VE"], 2, "Venezuelan bolivar", "937")
    } else if i == 130 {
        code("SGD", vec!["SD"], 2, "Sudanese pound", "938")
    } else if i == 131 {
        code("RSD", vec!["RS"], 2, "Serbian dinar", "941")
    } else if i == 132 {
        code("MZN", vec!["MZ"], 2, "Mozambican metical", "943")
    } else if i == 133 {
        code("AZN", vec!["AZ"], 2, "Azerbaijani manat", "944")
    } else if i == 134 {
        code("RON", vec!["RO"], 2, "Romanian leu", "946")
    } else if i == 135 {
        code("TRY", vec!["TR"], 2, "Turkish lira", "949")
    } else if i == 136 {
        code("XAF", vec!["CM", "CF", "CG", "GA", "GQ", "TD"], 0, "CFA franc BEAC", "950")
    } else if i == 137 {
        code(
            "XCD",
            vec!["AI", "AG", "DM", "GD", "KN", "LC", "MS", "VC"],
            2,
            "East Caribbean dollar",
            "951",
        )
    } else if i == 138 {
        code(
            "XOF",
            vec!["BF", "BJ", "CI", "GW", "ML", "NE", "SN", "TG"],
            0,
            "CFA franc BCEAO",
            "952",
        )
    } else if i == 139 {
        code("XPF", vec!["NC", "PF", "WF"], 0, "CFP franc", "953")
    } else if i == 140 {
        code("ZMW", vec!["ZM"], 2, "Zambian kwacha", "967")
    } else if i == 141 {
        code("SRD", vec!["SR"], 2, "Surinamese dollar", "968")
    } else if i == 142 {
        code("MGA", vec!["MG"], 1, "Malagasy ariary", "969")
    } else if i == 143 {
        code("AFN", vec!["AF"], 2, "Afghan afghani", "971")
    } else if i == 144 {
        code("TJS", vec!["TJ"], 2, "Tajikstani somoni", "972")
    } else if i == 145 {
        code("AOA", vec!["AO"], 2, "Angolan kwanza", "973")
    } else if i == 146 {
        code("BYR", vec!["BY"], 0, "Belarusian ruble", "974")
    } else if i == 147 {
        code("BGN", vec!["BG"], 2, "Bulgarian lev", "975")
    } else if i == 148 {
        code("CDF", vec!["CD"], 2, "Congolese franc", "976")
    } else if i == 149 {
        code("BAM", vec!["BA"], 2, "Bosnia and Herzegovina convertible mark", "977")
    } else if i == 150 {
        code(
            "EUR",
            vec![
                "AD", "AT", "BE", "BL", "CY", "DE", "EE", "ES", "FI", "FR", "GP", "GR", "IE", "IT",
                "LT", "LU", "LV", "MC", "ME", "MQ", "MT", "NL", "NL", "PM", "PT", "RE", "SI", "SK",
                "VA", "XK", "YT",
            ],
            2,
            "Euro",
            "978",
        )
    } else if i == 151 {
        code("UAH", vec!["UA"], 2, "Ukrainian hryvnia", "980")
    } else if i == 152 {
        code("GEL", vec!["GE"], 2, "Georgian lari", "981")
    } else if i == 153 {
        code("PLN", vec!["PL"], 2, "Polish złoty", "985")
    } else {
        code("BRL", vec!["BR"], 2, "Brazilian real", "986")
    }
}

/// Every record of the table, in its canonical order, built afresh on each
/// call.
pub fn currency_codes<'a>() -> (r: Vec<CurrencyCode<'a>>)
    ensures
        records(r@) == table(),
        r@.len() == CURRENCY_COUNT,
{
    let mut codes: Vec<CurrencyCode<'a>> = Vec::new();
    let mut i: usize = 0;
    while i < CURRENCY_COUNT
        invariant
            i <= CURRENCY_COUNT,
            codes@.len() == i,
            records(codes@) == table().take(i as int),
        decreases CURRENCY_COUNT - i,
    {
        let c = code_at(i);
        assert(c@ == entry(i as int));
        codes.push(c);
        assert(records(codes@) =~= table().take(i + 1));
        i += 1;
    }
    assert(table().take(CURRENCY_COUNT as int) =~= table());
    codes
}

/// The alpha code `code` as one number, a character to each place.
pub open spec fn alpha_key(code: Seq<char>) -> int {
    (code[0] as int) * 0x10000 + (code[1] as int) * 0x100 + (code[2] as int)
}

/// The position of the first record of the table whose alpha code has the
/// number `key`.
spec fn alpha_index(key: int) -> int {
    if key == alpha_key("ALL"@) {
        0
    } else if key == alpha_key("DZD"@) {
        1
    } else if key == alpha_key("ARS"@) {
        2
    } else if key == alpha_key("AUD"@) {
        3
    } else if key == alpha_key("BSD"@) {
        4
    } else if key == alpha_key("BHD"@) {
        5
    } else if key == alpha_key("BDT"@) {
        6
    } else if key == alpha_key("AMD"@) {
        7
    } else if key == alpha_key("BBD"@) {
        8
    } else if key == alpha_key("BMD"@) {
        9
    } else if key == alpha_key("BTN"@) {
        10
    } else if key == alpha_key("BOB"@) {
        11
    } else if key == alpha_key("BWP"@) {
        12
    } else if key == alpha_key("BZD"@) {
        13
    } else if key == alpha_key("SBD"@) {
        14
    } else if key == alpha_key("BND"@) {
        15
    } else if key == alpha_key("MMK"@) {
        16
    } else if key == alpha_key("BIF"@) {
        17
    } else if key == alpha_key("KHR"@) {
        18
    } else if key == alpha_key("CAD"@) {
        19
    } else if key == alpha_key("CVE"@) {
        20
    } else if key == alpha_key("KYD"@) {
        21
    } else if key == alpha_key("LKR"@) {
        22
    } else if key == alpha_key("CLP"@) {
        23
    } else if key == alpha_key("CNY"@) {
        24
    } else if key == alpha_key("COP"@) {
        25
    } else if key == alpha_key("KMF"@) {
        26
    } else if key == alpha_key("CRC"@) {
        27
    } else if key == alpha_key("HRK"@) {
        28
    } else if key == alpha_key("CUP"@) {
        29
    } else if key == alpha_key("CZK"@) {
        30
    } else if key == alpha_key("DKK"@) {
        31
    } else if key == alpha_key("DOP"@) {
        32
    } else if key == alpha_key("ETB"@) {
        33
    } else if key == alpha_key("ERN"@) {
        34
    } else if key == alpha_key("FKP"@) {
        35
    } else if key == alpha_key("FJD"@) {
        36
    } else if key == alpha_key("DJF"@) {
        37
    } else if key == alpha_key("GMD"@) {
        38
    } else if key == alpha_key("GIP"@) {
        39
    } else if key == alpha_key("GTQ"@) {
        40
    } else if key == alpha_key("GNF"@) {
        41
    } else if key == alpha_key("GYD"@) {
        42
    } else if key == alpha_key("HTG"@) {
        43
    } else if key == alpha_key("HNL"@) {
        44
    } else if key == alpha_key("HKD"@) {
        45
    } else if key == alpha_key("HUF"@) {
        46
    } else if key == alpha_key("ISK"@) {
        47
    } else if key == alpha_key("INR"@) {
        48
    } else if key == alpha_key("IDR"@) {
        49
    } else if key == alpha_key("IRR"@) {
        50
    } else if key == alpha_key("IQD"@) {
        51
    } else if key == alpha_key("ILS"@) {
        52
    } else if key == alpha_key("KMD"@) {
        53
    } else if key == alpha_key("JPY"@) {
        54
    } else if key == alpha_key("KZT"@) {
        55
    } else if key == alpha_key("JOD"@) {
        56
    } else if key == alpha_key("KES"@) {
        57
    } else if key == alpha_key("KPW"@) {
        58
    } else if key == alpha_key("KRW"@) {
        59
    } else if key == alpha_key("KWD"@) {
        60
    } else if key == alpha_key("KGS"@) {
        61
    } else if key == alpha_key("LAK"@) {
        62
    } else if key == alpha_key("LBP"@) {
        63
    } else if key == alpha_key("LSL"@) {
        64
    } else if key == alpha_key("LRD"@) {
        65
    } else if key == alpha_key("LYD"@) {
        66
    } else if key == alpha_key("MOP"@) {
        67
    } else if key == alpha_key("MWK"@) {
        68
    } else if key == alpha_key("MYR"@) {
        69
    } else if key == alpha_key("MVR"@) {
        70
    } else if key == alpha_key("MRO"@) {
        71
    } else if key == alpha_key("MUR"@) {
        72
    } else if key == alpha_key("MXN"@) {
        73
    } else if key == alpha_key("MNT"@) {
        74
    } else if key == alpha_key("MDL"@) {
        75
    } else if key == alpha_key("MAD"@) {
        76
    } else if key == alpha_key("OMR"@) {
        77
    } else if key == alpha_key("NAD"@) {
        78
    } else if key == alpha_key("NPR"@) {
        79
    } else if key == alpha_key("ANG"@) {
        80
    } else if key == alpha_key("AWG"@) {
        81
    } else if key == alpha_key("VUV"@) {
        82
    } else if key == alpha_key("NZD"@) {
        83
    } else if key == alpha_key("NIO"@) {
        84
    } else if key == alpha_key("NGN"@) {
        85
    } else if key == alpha_key("NOK"@) {
        86
    } else if key == alpha_key("PKR"@) {
        87
    } else if key == alpha_key("PAB"@) {
        88
    } else if key == alpha_key("PGK"@) {
        89
    } else if key == alpha_key("PYG"@) {
        90
    } else if key == alpha_key("PEN"@) {
        91
    } else if key == alpha_key("PHP"@) {
        92
    } else if key == alpha_key("QAR"@) {
        93
    } else if key == alpha_key("RUB"@) {
        94
    } else if key == alpha_key("RWF"@) {
        95
    } else if key == alpha_key("SHP"@) {
        96
    } else if key == alpha_key("STD"@) {
        97
    } else if key == alpha_key("SAR"@) {
        98
    } else if key == alpha_key("SCR"@) {
        99
    } else if key == alpha_key("SLL"@) {
        100
    } else if key == alpha_key("SGD"@) {
        101
    } else if key == alpha_key("VND"@) {
        102
    } else if key == alpha_key("SOS"@) {
        103
    } else if key == alpha_key("ZAR"@) {
        104
    } else if key == alpha_key("SSP"@) {
        105
    } else if key == alpha_key("SZL"@) {
        106
    } else if key == alpha_key("SEK"@) {
        107
    } else if key == alpha_key("CHF"@) {
        108
    } else if key == alpha_key("SYP"@) {
        109
    } else if key == alpha_key("THB"@) {
        110
    } else if key == alpha_key("TOP"@) {
        111
    } else if key == alpha_key("TTD"@) {
        112
    } else if key == alpha_key("AED"@) {
        113
    } else if key == alpha_key("TND"@) {
        114
    } else if key == alpha_key("UGX"@) {
        115
    } else if key == alpha_key("MKD"@) {
        116
    } else if key == alpha_key("EGP"@) {
        117
    } else if key == alpha_key("GBP"@) {
        118
    } else if key == alpha_key("TZS"@) {
        119
    } else if key == alpha_key("USD"@) {
        120
    } else if key == alpha_key("UYU"@) {
        121
    } else if key == alpha_key("UZS"@) {
        122
    } else if key == alpha_key("WST"@) {
        123
    } else if key == alpha_key("YER"@) {
        124
    } else if key == alpha_key("TWD"@) {
        125
    } else if key == alpha_key("CUC"@) {
        126
    } else if key == alpha_key("TMT"@) {
        127
    } else if key == alpha_key("GHS"@) {
        128
    } else if key == alpha_key("VEF"@) {
        129
    } else if key == alpha_key("RSD"@) {
        131
    } else if key == alpha_key("MZN"@) {
        132
    } else if key == alpha_key("AZN"@) {
        133
    } else if key == alpha_key("RON"@) {
        134
    } else if key == alpha_key("TRY"@) {
        135
    } else if key == alpha_key("XAF"@) {
        136
    } else if key == alpha_key("XCD"@) {
        137
    } else if key == alpha_key("XOF"@) {
        138
    } else if key == alpha_key("XPF"@) {
        139
    } else if key == alpha_key("ZMW"@) {
        140
    } else if key == alpha_key("SRD"@) {
        141
    } else if key == alpha_key("MGA"@) {
        142
    } else if key == alpha_key("AFN"@) {
        143
    } else if key == alpha_key("TJS"@) {
        144
    } else if key == alpha_key("AOA"@) {
        145
    } else if key == alpha_key("BYR"@) {
        146
    } else if key == alpha_key("BGN"@) {
        147
    } else if key == alpha_key("CDF"@) {
        148
    } else if key == alpha_key("BAM"@) {
        149
    } else if key == alpha_key("EUR"@) {
        150
    } else if key == alpha_key("UAH"@) {
        151
    } else if key == alpha_key("GEL"@) {
        152
    } else if key == alpha_key("PLN"@) {
        153
    } else {
        154
    }
}

/// The one alpha code that two records of the table share is "SGD", held by
/// the Singapore dollar and, after it, by the Sudanese pound.
pub proof fn lemma_alpha3_shared_only_by_sgd()
    ensures
        forall|j: int, k: int|
            0 <= j < k < CURRENCY_COUNT && #[trigger] entry(j).alpha3 == #[trigger] entry(k).alpha3
                ==> j == SINGAPORE_DOLLAR as int && k == SUDANESE_POUND as int,
        entry(SINGAPORE_DOLLAR as int).alpha3 == "SGD"@,
        entry(SINGAPORE_DOLLAR as int).name == "Singapore dollar"@,
        entry(SUDANESE_POUND as int).alpha3 == "SGD"@,
{
    reveal(entry);
    // Each record but the Sudanese pound leads back, by its alpha code, to
    // its own position, so no two of them share one. The check is made one
    // position at a time.
    assert forall|i: int| 0 <= i < CURRENCY_COUNT && i != SUDANESE_POUND as int implies
        alpha_index(alpha_key(entry(i).alpha3)) == i by {
        reveal_strlit("ALL");
        reveal_strlit("DZD");
        reveal_strlit("ARS");
        reveal_strlit("AUD");
        reveal_strlit("BSD");
        reveal_strlit("BHD");
        reveal_strlit("BDT");
        reveal_strlit("AMD");
        reveal_strlit("BBD");
        reveal_strlit("BMD");
        reveal_strlit("BTN");
        reveal_strlit("BOB");
        reveal_strlit("BWP");
        reveal_strlit("BZD");
        reveal_strlit("SBD");
        reveal_strlit("BND");
        reveal_strlit("MMK");
        reveal_strlit("BIF");
        reveal_strlit("KHR");
        reveal_strlit("CAD");
        reveal_strlit("CVE");
        reveal_strlit("KYD");
        reveal_strlit("LKR");
        reveal_strlit("CLP");
        reveal_strlit("CNY");
        reveal_strlit("COP");
        reveal_strlit("KMF");
        reveal_strlit("CRC");
        reveal_strlit("HRK");
        reveal_strlit("CUP");
        reveal_strlit("CZK");
        reveal_strlit("DKK");
        reveal_strlit("DOP");
        reveal_strlit("ETB");
        reveal_strlit("ERN");
        reveal_strlit("FKP");
        reveal_strlit("FJD");
        reveal_strlit("DJF");
        reveal_strlit("GMD");
        reveal_strlit("GIP");
        reveal_strlit("GTQ");
        reveal_strlit("GNF");
        reveal_strlit("GYD");
        reveal_strlit("HTG");
        reveal_strlit("HNL");
        reveal_strlit("HKD");
        reveal_strlit("HUF");
        reveal_strlit("ISK");
        reveal_strlit("INR");
        reveal_strlit("IDR");
        reveal_strlit("IRR");
        reveal_strlit("IQD");
        reveal_strlit("ILS");
        reveal_strlit("KMD");
        reveal_strlit("JPY");
        reveal_strlit("KZT");
        reveal_strlit("JOD");
        reveal_strlit("KES");
        reveal_strlit("KPW");
        reveal_strlit("KRW");
        reveal_strlit("KWD");
        reveal_strlit("KGS");
        reveal_strlit("LAK");
        reveal_strlit("LBP");
        reveal_strlit("LSL");
        reveal_strlit("LRD");
        reveal_strlit("LYD");
        reveal_strlit("MOP");
        reveal_strlit("MWK");
        reveal_strlit("MYR");
        reveal_strlit("MVR");
        reveal_strlit("MRO");
        reveal_strlit("MUR");
        reveal_strlit("MXN");
        reveal_strlit("MNT");
        reveal_strlit("MDL");
        reveal_strlit("MAD");
        reveal_strlit("OMR");
        reveal_strlit("NAD");
        reveal_strlit("NPR");
        reveal_strlit("ANG");
        reveal_strlit("AWG");
        reveal_strlit("VUV");
        reveal_strlit("NZD");
        reveal_strlit("NIO");
        reveal_strlit("NGN");
        reveal_strlit("NOK");
        reveal_strlit("PKR");
        reveal_strlit("PAB");
        reveal_strlit("PGK");
        reveal_strlit("PYG");
        reveal_strlit("PEN");
        reveal_strlit("PHP");
        reveal_strlit("QAR");
        reveal_strlit("RUB");
        reveal_strlit("RWF");
        reveal_strlit("SHP");
        reveal_strlit("STD");
        reveal_strlit("SAR");
        reveal_strlit("SCR");
        reveal_strlit("SLL");
        reveal_strlit("SGD");
        reveal_strlit("VND");
        reveal_strlit("SOS");
        reveal_strlit("ZAR");
        reveal_strlit("SSP");
        reveal_strlit("SZL");
        reveal_strlit("SEK");
        reveal_strlit("CHF");
        reveal_strlit("SYP");
        reveal_strlit("THB");
        reveal_strlit("TOP");
        reveal_strlit("TTD");
        reveal_strlit("AED");
        reveal_strlit("TND");
        reveal_strlit("UGX");
        reveal_strlit("MKD");
        reveal_strlit("EGP");
        reveal_strlit("GBP");
        reveal_strlit("TZS");
        reveal_strlit("USD");
        reveal_strlit("UYU");
        reveal_strlit("UZS");
        reveal_strlit("WST");
        reveal_strlit("YER");
        reveal_strlit("TWD");
        reveal_strlit("CUC");
        reveal_strlit("TMT");
        reveal_strlit("GHS");
        reveal_strlit("VEF");
        reveal_strlit("RSD");
        reveal_strlit("MZN");
        reveal_strlit("AZN");
        reveal_strlit("RON");
        reveal_strlit("TRY");
        reveal_strlit("XAF");
        reveal_strlit("XCD");
        reveal_strlit("XOF");
        reveal_strlit("XPF");
        reveal_strlit("ZMW");
        reveal_strlit("SRD");
        reveal_strlit("MGA");
        reveal_strlit("AFN");
        reveal_strlit("TJS");
        reveal_strlit("AOA");
        reveal_strlit("BYR");
        reveal_strlit("BGN");
        reveal_strlit("CDF");
        reveal_strlit("BAM");
        reveal_strlit("EUR");
        reveal_strlit("UAH");
        reveal_strlit("GEL");
        reveal_strlit("PLN");
        reveal_strlit("BRL");
        if i == 0 {
        } else if i == 1 {
        } else if i == 2 {
        } else if i == 3 {
        } else if i == 4 {
        } else if i == 5 {
        } else if i == 6 {
        } else if i == 7 {
        } else if i == 8 {
        } else if i == 9 {
        } else if i == 10 {
        } else if i == 11 {
        } else if i == 12 {
        } else if i == 13 {
        } else if i == 14 {
        } else if i == 15 {
        } else if i == 16 {
        } else if i == 17 {
        } else if i == 18 {
        } else if i == 19 {
        } else if i == 20 {
        } else if i == 21 {
        } else if i == 22 {
        } else if i == 23 {
        } else if i == 24 {
        } else if i == 25 {
        } else if i == 26 {
        } else if i == 27 {
        } else if i == 28 {
        } else if i == 29 {
        } else if i == 30 {
        } else if i == 31 {
        } else if i == 32 {
        } else if i == 33 {
        } else if i == 34 {
        } else if i == 35 {
        } else if i == 36 {
        } else if i == 37 {
        } else if i == 38 {
        } else if i == 39 {
        } else if i == 40 {
        } else if i == 41 {
        } else if i == 42 {
        } else if i == 43 {
        } else if i == 44 {
        } else if i == 45 {
        } else if i == 46 {
        } else if i == 47 {
        } else if i == 48 {
        } else if i == 49 {
        } else if i == 50 {
        } else if i == 51 {
        } else if i == 52 {
        } else if i == 53 {
        } else if i == 54 {
        } else if i == 55 {
        } else if i == 56 {
        } else if i == 57 {
        } else if i == 58 {
        } else if i == 59 {
        } else if i == 60 {
        } else if i == 61 {
        } else if i == 62 {
        } else if i == 63 {
        } else if i == 64 {
        } else if i == 65 {
        } else if i == 66 {
        } else if i == 67 {
        } else if i == 68 {
        } else if i == 69 {
        } else if i == 70 {
        } else if i == 71 {
        } else if i == 72 {
        } else if i == 73 {
        } else if i == 74 {
        } else if i == 75 {
        } else if i == 76 {
        } else if i == 77 {
        } else if i == 78 {
        } else if i == 79 {
        } else if i == 80 {
        } else if i == 81 {
        } else if i == 82 {
        } else if i == 83 {
        } else if i == 84 {
        } else if i == 85 {
        } else if i == 86 {
        } else if i == 87 {
        } else if i == 88 {
        } else if i == 89 {
        } else if i == 90 {
        } else if i == 91 {
        } else if i == 92 {
        } else if i == 93 {
        } else if i == 94 {
        } else if i == 95 {
        } else if i == 96 {
        } else if i == 97 {
        } else if i == 98 {
        } else if i == 99 {
        } else if i == 100 {
        } else if i == 101 {
        } else if i == 102 {
        } else if i == 103 {
        } else if i == 104 {
        } else if i == 105 {
        } else if i == 106 {
        } else if i == 107 {
        } else if i == 108 {
        } else if i == 109 {
        } else if i == 110 {
        } else if i == 111 {
        } else if i == 112 {
        } else if i == 113 {
        } else if i == 114 {
        } else if i == 115 {
        } else if i == 116 {
        } else if i == 117 {
        } else if i == 118 {
        } else if i == 119 {
        } else if i == 120 {
        } else if i == 121 {
        } else if i == 122 {
        } else if i == 123 {
        } else if i == 124 {
        } else if i == 125 {
        } else if i == 126 {
        } else if i == 127 {
        } else if i == 128 {
        } else if i == 129 {
        } else if i == 130 {
        } else if i == 131 {
        } else if i == 132 {
        } else if i == 133 {
        } else if i == 134 {
        } else if i == 135 {
        } else if i == 136 {
        } else if i == 137 {
        } else if i == 138 {
        } else if i == 139 {
        } else if i == 140 {
        } else if i == 141 {
        } else if i == 142 {
        } else if i == 143 {
        } else if i == 144 {
        } else if i == 145 {
        } else if i == 146 {
        } else if i == 147 {
        } else if i == 148 {
        } else if i == 149 {
        } else if i == 150 {
        } else if i == 151 {
        } else if i == 152 {
        } else if i == 153 {
        } else {
        }
    }
    assert(entry(SUDANESE_POUND as int).alpha3 == entry(SINGAPORE_DOLLAR as int).alpha3);
}

/// The value of the decimal digit `c`.
pub open spec fn digit_value(c: char) -> int {
    (c as int) - ('0' as int)
}

/// The number that the numeric code `code` writes in three decimal digits.
pub open spec fn numeric_value(code: Seq<char>) -> int {
    digit_value(code[0]) * 100 + digit_value(code[1]) * 10 + digit_value(code[2])
}

/// Each record's numeric code is below that of the record after it.
proof fn lemma_num_step()
    ensures
        forall|i: int|
            0 <= i < CURRENCY_COUNT - 1 ==> numeric_value(#[trigger] entry(i).num) < numeric_value(
                entry(i + 1).num,
            ),
{
    reveal(entry);
    // The check is made one position at a time.
    assert forall|i: int| 0 <= i < CURRENCY_COUNT - 1 implies numeric_value(
        #[trigger] entry(i).num,
    ) < numeric_value(entry(i + 1).num) by {
        reveal_strlit("008");
        reveal_strlit("012");
        reveal_strlit("032");
        reveal_strlit("036");
        reveal_strlit("044");
        reveal_strlit("048");
        reveal_strlit("050");
        reveal_strlit("051");
        reveal_strlit("052");
        reveal_strlit("060");
        reveal_strlit("064");
        reveal_strlit("068");
        reveal_strlit("072");
        reveal_strlit("084");
        reveal_strlit("090");
        reveal_strlit("096");
        reveal_strlit("104");
        reveal_strlit("108");
        reveal_strlit("116");
        reveal_strlit("124");
        reveal_strlit("132");
        reveal_strlit("136");
        reveal_strlit("144");
        reveal_strlit("152");
        reveal_strlit("156");
        reveal_strlit("170");
        reveal_strlit("174");
        reveal_strlit("188");
        reveal_strlit("191");
        reveal_strlit("192");
        reveal_strlit("203");
        reveal_strlit("208");
        reveal_strlit("214");
        reveal_strlit("230");
        reveal_strlit("232");
        reveal_strlit("238");
        reveal_strlit("242");
        reveal_strlit("262");
        reveal_strlit("270");
        reveal_strlit("292");
        reveal_strlit("320");
        reveal_strlit("324");
        reveal_strlit("328");
        reveal_strlit("332");
        reveal_strlit("340");
        reveal_strlit("344");
        reveal_strlit("348");
        reveal_strlit("352");
        reveal_strlit("356");
        reveal_strlit("360");
        reveal_strlit("364");
        reveal_strlit("368");
        reveal_strlit("376");
        reveal_strlit("388");
        reveal_strlit("392");
        reveal_strlit("398");
        reveal_strlit("400");
        reveal_strlit("404");
        reveal_strlit("408");
        reveal_strlit("410");
        reveal_strlit("414");
        reveal_strlit("417");
        reveal_strlit("418");
        reveal_strlit("422");
        reveal_strlit("426");
        reveal_strlit("430");
        reveal_strlit("434");
        reveal_strlit("446");
        reveal_strlit("454");
        reveal_strlit("458");
        reveal_strlit("462");
        reveal_strlit("478");
        reveal_strlit("480");
        reveal_strlit("484");
        reveal_strlit("496");
        reveal_strlit("498");
        reveal_strlit("504");
        reveal_strlit("512");
        reveal_strlit("516");
        reveal_strlit("524");
        reveal_strlit("532");
        reveal_strlit("533");
        reveal_strlit("548");
        reveal_strlit("554");
        reveal_strlit("558");
        reveal_strlit("566");
        reveal_strlit("578");
        reveal_strlit("586");
        reveal_strlit("590");
        reveal_strlit("598");
        reveal_strlit("600");
        reveal_strlit("604");
        reveal_strlit("608");
        reveal_strlit("634");
        reveal_strlit("643");
        reveal_strlit("646");
        reveal_strlit("654");
        reveal_strlit("678");
        reveal_strlit("682");
        reveal_strlit("690");
        reveal_strlit("694");
        reveal_strlit("702");
        reveal_strlit("704");
        reveal_strlit("706");
        reveal_strlit("710");
        reveal_strlit("728");
        reveal_strlit("748");
        reveal_strlit("752");
        reveal_strlit("756");
        reveal_strlit("760");
        reveal_strlit("764");
        reveal_strlit("776");
        reveal_strlit("780");
        reveal_strlit("784");
        reveal_strlit("788");
        reveal_strlit("800");
        reveal_strlit("807");
        reveal_strlit("818");
        reveal_strlit("826");
        reveal_strlit("834");
        reveal_strlit("840");
        reveal_strlit("858");
        reveal_strlit("860");
        reveal_strlit("882");
        reveal_strlit("886");
        reveal_strlit("901");
        reveal_strlit("931");
        reveal_strlit("934");
        reveal_strlit("936");
        reveal_strlit("937");
        reveal_strlit("938");
        reveal_strlit("941");
        reveal_strlit("943");
        reveal_strlit("944");
        reveal_strlit("946");
        reveal_strlit("949");
        reveal_strlit("950");
        reveal_strlit("951");
        reveal_strlit("952");
        reveal_strlit("953");
        reveal_strlit("967");
        reveal_strlit("968");
        reveal_strlit("969");
        reveal_strlit("971");
        reveal_strlit("972");
        reveal_strlit("973");
        reveal_strlit("974");
        reveal_strlit("975");
        reveal_strlit("976");
        reveal_strlit("977");
        reveal_strlit("978");
        reveal_strlit("980");
        reveal_strlit("981");
        reveal_strlit("985");
        reveal_strlit("986");
        if i == 0 {
        } else if i == 1 {
        } else if i == 2 {
        } else if i == 3 {
        } else if i == 4 {
        } else if i == 5 {
        } else if i == 6 {
        } else if i == 7 {
        } else if i == 8 {
        } else if i == 9 {
        } else if i == 10 {
        } else if i == 11 {
        } else if i == 12 {
        } else if i == 13 {
        } else if i == 14 {
        } else if i == 15 {
        } else if i == 16 {
        } else if i == 17 {
        } else if i == 18 {
        } else if i == 19 {
        } else if i == 20 {
        } else if i == 21 {
        } else if i == 22 {
        } else if i == 23 {
        } else if i == 24 {
        } else if i == 25 {
        } else if i == 26 {
        } else if i == 27 {
        } else if i == 28 {
        } else if i == 29 {
        } else if i == 30 {
        } else if i == 31 {
        } else if i == 32 {
        } else if i == 33 {
        } else if i == 34 {
        } else if i == 35 {
        } else if i == 36 {
        } else if i == 37 {
        } else if i == 38 {
        } else if i == 39 {
        } else if i == 40 {
        } else if i == 41 {
        } else if i == 42 {
        } else if i == 43 {
        } else if i == 44 {
        } else if i == 45 {
        } else if i == 46 {
        } else if i == 47 {
        } else if i == 48 {
        } else if i == 49 {
        } else if i == 50 {
        } else if i == 51 {
        } else if i == 52 {
        } else if i == 53 {
        } else if i == 54 {
        } else if i == 55 {
        } else if i == 56 {
        } else if i == 57 {
        } else if i == 58 {
        } else if i == 59 {
        } else if i == 60 {
        } else if i == 61 {
        } else if i == 62 {
        } else if i == 63 {
        } else if i == 64 {
        } else if i == 65 {
        } else if i == 66 {
        } else if i == 67 {
        } else if i == 68 {
        } else if i == 69 {
        } else if i == 70 {
        } else if i == 71 {
        } else if i == 72 {
        } else if i == 73 {
        } else if i == 74 {
        } else if i == 75 {
        } else if i == 76 {
        } else if i == 77 {
        } else if i == 78 {
        } else if i == 79 {
        } else if i == 80 {
        } else if i == 81 {
        } else if i == 82 {
        } else if i == 83 {
        } else if i == 84 {
        } else if i == 85 {
        } else if i == 86 {
        } else if i == 87 {
        } else if i == 88 {
        } else if i == 89 {
        } else if i == 90 {
        } else if i == 91 {
        } else if i == 92 {
        } else if i == 93 {
        } else if i == 94 {
        } else if i == 95 {
        } else if i == 96 {
        } else if i == 97 {
        } else if i == 98 {
        } else if i == 99 {
        } else if i == 100 {
        } else if i == 101 {
        } else if i == 102 {
        } else if i == 103 {
        } else if i == 104 {
        } else if i == 105 {
        } else if i == 106 {
        } else if i == 107 {
        } else if i == 108 {
        } else if i == 109 {
        } else if i == 110 {
        } else if i == 111 {
        } else if i == 112 {
        } else if i == 113 {
        } else if i == 114 {
        } else if i == 115 {
        } else if i == 116 {
        } else if i == 117 {
        } else if i == 118 {
        } else if i == 119 {
        } else if i == 120 {
        } else if i == 121 {
        } else if i == 122 {
        } else if i == 123 {
        } else if i == 124 {
        } else if i == 125 {
        } else if i == 126 {
        } else if i == 127 {
        } else if i == 128 {
        } else if i == 129 {
        } else if i == 130 {
        } else if i == 131 {
        } else if i == 132 {
        } else if i == 133 {
        } else if i == 134 {
        } else if i == 135 {
        } else if i == 136 {
        } else if i == 137 {
        } else if i == 138 {
        } else if i == 139 {
        } else if i == 140 {
        } else if i == 141 {
        } else if i == 142 {
        } else if i == 143 {
        } else if i == 144 {
        } else if i == 145 {
        } else if i == 146 {
        } else if i == 147 {
        } else if i == 148 {
        } else if i == 149 {
        } else if i == 150 {
        } else if i == 151 {
        } else if i == 152 {
        } else {
        }
    }
}

/// The table is sorted by numeric code, strictly: no two records share one.
pub proof fn lemma_sorted_by_num(j: int, k: int)
    requires
        0 <= j < k < CURRENCY_COUNT,
    ensures
        numeric_value(entry(j).num) < numeric_value(entry(k).num),
        entry(j).num != entry(k).num,
    decreases k - j,
{
    lemma_num_step();
    if j + 1 < k {
        lemma_sorted_by_num(j + 1, k);
    }
}

} // verus!
