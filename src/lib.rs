//! Predicates that classify strings and dynamically typed values:
//! text formats (email, URL, phone, password, JSON, IP and MAC addresses),
//! the kind of a dynamic value, and payment-card numbers (Luhn checksum).
mod card;
mod dynamic;
mod format;
mod pattern;

pub use card::{
    MASTER_PATTERN, MIN_CARD_DIGITS, VISA_PATTERN, check_digit, credit_card_accepts, digit_value,
    digits_of, is_credit_card, is_decimal_digit, is_master_card, is_visa_card,
    lemma_brand_implies_card, lemma_check_digit_completes, luhn_sum, luhn_term, luhn_valid,
    master_accepts, visa_accepts,
};
pub use dynamic::{
    Dynamic, is_array, is_boolean, is_date, is_empty, is_function, is_number, is_object,
    is_string,
};
pub use format::{
    DIGIT_PATTERN, EMAIL_PATTERN, IPV4_PATTERN, IPV6_PATTERN, MAC_PATTERN, MIN_PASSWORD_CHARS,
    PHONE_PATTERN, SYMBOL_PATTERN, URL_PATTERN, email_accepts, ip_address_accepts, ipv4_accepts,
    ipv6_accepts, is_email, is_ip_address, is_ipv4, is_ipv6, is_json, is_lower_letter,
    is_mac_address, is_phone_number, is_strong_password, is_upper_letter, is_url, json_parses,
    lemma_ip_address_is_either_version, mac_accepts, passes_password_rule, password_accepts,
    password_shape, phone_accepts, url_accepts,
};
pub use pattern::{regex_accepts, regex_compiles, regex_matches};
