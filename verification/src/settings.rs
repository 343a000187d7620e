//! The store settings: read from the key/value rows of the settings table,
//! and the rows an update writes.
use vstd::prelude::*;
use vstd::string::*;

use crate::text::{
    ascii_lowercase, ascii_text, join_text, lowercased, split_on, split_text, str_eq, string_of,
    to_lowercase, trim, trimmed,
};
use crate::values::{
    bool_text, decimal_parse, decimal_text, decimal_valid, decimal_zero, format_bool,
    format_decimal, format_uuid, parse_decimal, parse_uuid, uuid_parse, uuid_text, DecimalValue,
};

verus! {

broadcast use vstd::string::group_string_axioms;

/// The rows of the settings table: a key and its value, which may be NULL.
/// Where a key occurs twice the later row counts, as when the rows are
/// collected into a map.
#[derive(Debug)]
pub struct SettingsMap {
    pub entries: Vec<(String, Option<String>)>,
}

/// A row as text.
pub open spec fn entry_view(e: (String, Option<String>)) -> (Seq<char>, Option<Seq<char>>) {
    (
        e.0@,
        match e.1 {
            Some(v) => Some(v@),
            None => None,
        },
    )
}

/// The rows as text.
pub open spec fn entries_view(es: Seq<(String, Option<String>)>) -> Seq<(Seq<char>, Option<Seq<char>>)> {
    es.map_values(|e: (String, Option<String>)| entry_view(e))
}

/// The value stored for `key`: that of its last row, unless the key is
/// missing or its value is NULL.
pub open spec fn stored_value(es: Seq<(Seq<char>, Option<Seq<char>>)>, key: Seq<char>) -> Option<
    Seq<char>,
>
    decreases es.len(),
{
    if es.len() == 0 {
        None
    } else if es.last().0 == key {
        es.last().1
    } else {
        stored_value(es.drop_last(), key)
    }
}

/// A text setting: the stored text, else the default.
pub open spec fn text_setting(es: Seq<(Seq<char>, Option<Seq<char>>)>, key: Seq<char>, default: Seq<
    char,
>) -> Seq<char> {
    match stored_value(es, key) {
        Some(v) => v,
        None => default,
    }
}

/// What a boolean setting reads, once trimmed and in lower case.
pub open spec fn parse_bool_text(s: Seq<char>) -> Option<bool> {
    if s == "true"@ || s == "1"@ || s == "yes"@ || s == "on"@ {
        Some(true)
    } else if s == "false"@ || s == "0"@ || s == "no"@ || s == "off"@ {
        Some(false)
    } else {
        None
    }
}

/// A boolean setting: the stored text read as a boolean, else the default.
pub open spec fn bool_setting(es: Seq<(Seq<char>, Option<Seq<char>>)>, key: Seq<char>, default: bool) -> bool {
    match stored_value(es, key) {
        Some(v) => match parse_bool_text(lowercased(trimmed(v))) {
            Some(b) => b,
            None => default,
        },
        None => default,
    }
}

/// A list setting: the stored text split at commas, else no items.
pub open spec fn list_setting(es: Seq<(Seq<char>, Option<Seq<char>>)>, key: Seq<char>) -> Seq<Seq<char>> {
    match stored_value(es, key) {
        Some(v) => split_text(v, ','),
        None => Seq::empty(),
    }
}

/// A UUID setting: the stored text read as a UUID, if it is one.
pub open spec fn uuid_setting(es: Seq<(Seq<char>, Option<Seq<char>>)>, key: Seq<char>) -> Option<u128> {
    match stored_value(es, key) {
        Some(v) => uuid_parse(v),
        None => None,
    }
}

/// A decimal setting: the stored text read as a decimal, else the default.
pub open spec fn decimal_setting(
    es: Seq<(Seq<char>, Option<Seq<char>>)>,
    key: Seq<char>,
    default: DecimalValue,
) -> DecimalValue {
    match stored_value(es, key) {
        Some(v) => match decimal_parse(v) {
            Some(d) => d,
            None => default,
        },
        None => default,
    }
}

/// The row of `key`, the latest one.
fn find_setting<'a>(map: &'a SettingsMap, key: &str) -> (r: Option<&'a String>)
    ensures
        match r {
            Some(s) => stored_value(entries_view(map.entries@), key@) == Some(s@),
            None => stored_value(entries_view(map.entries@), key@) is None,
        },
{
    let ghost es = entries_view(map.entries@);
    let mut i: usize = map.entries.len();
    assert(es.take(i as int) =~= es);
    while i > 0
        invariant
            i <= map.entries@.len(),
            es == entries_view(map.entries@),
            stored_value(es, key@) == stored_value(es.take(i as int), key@),
        decreases i,
    {
        let entry = &map.entries[i - 1];
        proof {
            assert(es.take(i as int).drop_last() =~= es.take(i - 1));
            assert(es.take(i as int).last() == entry_view(*entry));
        }
        if str_eq(entry.0.as_str(), key) {
            return match &entry.1 {
                Some(v) => Some(v),
                None => None,
            };
        }
        i = i - 1;
    }
    None
}

/// A text setting, or `default` when it is missing or NULL.
pub fn get_string(map: &SettingsMap, key: &str, default: &str) -> (r: String)
    ensures
        r@ == text_setting(entries_view(map.entries@), key@, default@),
{
    match find_setting(map, key) {
        Some(v) => v.clone(),
        None => string_of(default),
    }
}

/// Reads a trimmed, lower-case setting text as a boolean: `true`, `1`,
/// `yes`, `on` are true; `false`, `0`, `no`, `off` are false; anything else
/// is no boolean.
pub fn parse_bool_setting(normalized: &str) -> (r: Option<bool>)
    ensures
        r == parse_bool_text(normalized@),
{
    if str_eq(normalized, "true") || str_eq(normalized, "1") || str_eq(normalized, "yes")
        || str_eq(normalized, "on") {
        Some(true)
    } else if str_eq(normalized, "false") || str_eq(normalized, "0") || str_eq(normalized, "no")
        || str_eq(normalized, "off") {
        Some(false)
    } else {
        None
    }
}

/// `true` and `false`, as written, read back as themselves.
proof fn lemma_bool_text_reads_back(b: bool)
    ensures
        ascii_text(bool_text(b)),
        trimmed(bool_text(b)) == bool_text(b),
        ascii_lowercase(bool_text(b)) == bool_text(b),
        parse_bool_text(bool_text(b)) == Some(b),
{
    reveal_strlit("true");
    reveal_strlit("false");
    reveal_strlit("1");
    reveal_strlit("yes");
    reveal_strlit("on");
    let t = bool_text(b);
    assert(ascii_lowercase(t) =~= t);
    assert(crate::text::trim_start_text(t) == t);
    assert(crate::text::trim_end_text(t) == t);
}

/// A boolean setting, or `default` when it is missing, NULL or no boolean.
/// A stored `true` or `false`, as an update writes them, reads back as itself.
pub fn get_bool(map: &SettingsMap, key: &str, default: bool) -> (r: bool)
    ensures
        r == bool_setting(entries_view(map.entries@), key@, default),
        forall|b: bool|
            stored_value(entries_view(map.entries@), key@) == Some(#[trigger] bool_text(b)) ==> r
                == b,
{
    match find_setting(map, key) {
        Some(v) => {
            let t = trim(v.as_str());
            let lower = to_lowercase(t);
            proof {
                if exists|b: bool| v@ == #[trigger] bool_text(b) {
                    let b = choose|b: bool| v@ == #[trigger] bool_text(b);
                    lemma_bool_text_reads_back(b);
                    assert(lower@ == bool_text(b));
                    assert(bool_text(b) != bool_text(!b)) by {
                        reveal_strlit("true");
                        reveal_strlit("false");
                    }
                }
            }
            match parse_bool_setting(lower.as_str()) {
                Some(b) => b,
                None => default,
            }
        },
        None => default,
    }
}

/// A list setting: the stored text split at commas, or no items when it is missing or NULL.
pub fn get_string_vec(map: &SettingsMap, key: &str) -> (r: Vec<String>)
    ensures
        r@.map_values(|p: String| p@) == list_setting(entries_view(map.entries@), key@),
{
    match find_setting(map, key) {
        Some(v) => split_on(v.as_str(), ','),
        None => {
            let r: Vec<String> = Vec::new();
            assert(r@.map_values(|p: String| p@) =~= Seq::<Seq<char>>::empty());
            r
        },
    }
}

/// A UUID setting, or `None` when it is missing, NULL or no UUID.
pub fn get_uuid(map: &SettingsMap, key: &str) -> (r: Option<u128>)
    ensures
        r == uuid_setting(entries_view(map.entries@), key@),
{
    match find_setting(map, key) {
        Some(v) => parse_uuid(v.as_str()),
        None => None,
    }
}

/// A decimal setting, or `default` when it is missing, NULL or no decimal.
pub fn get_decimal(map: &SettingsMap, key: &str, default: DecimalValue) -> (r: DecimalValue)
    ensures
        r == decimal_setting(entries_view(map.entries@), key@, default),
{
    match find_setting(map, key) {
        Some(v) => match parse_decimal(v.as_str()) {
            Some(d) => d,
            None => default,
        },
        None => default,
    }
}

/// The store settings the bot and the pricing read.
#[derive(Debug)]
pub struct Settings {
    pub bot_messages_support: String,
    pub bot_messages_support_image_id: Option<u128>,
    pub bot_messages_new_user_welcome: String,
    pub bot_messages_new_user_welcome_image_id: Option<u128>,
    pub bot_messages_returning_user_welcome: String,
    pub bot_messages_returning_user_welcome_image_id: Option<u128>,
    pub pricing_global_markup: DecimalValue,
    pub pricing_platform_commission: DecimalValue,
    pub pricing_gateway_markup: DecimalValue,
    pub pricing_gateway_bonus_mock_provider: DecimalValue,
    pub pricing_gateway_bonus_platform_card: DecimalValue,
    pub pricing_gateway_bonus_platform_sbp: DecimalValue,
    pub referral_program_enabled: bool,
    pub referral_percentage: DecimalValue,
    pub bot_payment_system_support_operators: Vec<String>,
    pub bot_about: String,
    pub bot_description: String,
}

/// The settings the rows `es` hold, each with its default.
pub open spec fn settings_from_rows(s: Settings, es: Seq<(Seq<char>, Option<Seq<char>>)>) -> bool {
    &&& s.bot_messages_support@ == text_setting(es, "bot_messages_support"@, "Служба поддержки"@)
    &&& s.bot_messages_support_image_id == uuid_setting(es, "bot_messages_support_image_id"@)
    &&& s.bot_messages_new_user_welcome@ == text_setting(
        es,
        "bot_messages_new_user_welcome"@,
        "Добро пожаловать, {username}!"@,
    )
    &&& s.bot_messages_new_user_welcome_image_id == uuid_setting(
        es,
        "bot_messages_new_user_welcome_image_id"@,
    )
    &&& s.bot_messages_returning_user_welcome@ == text_setting(
        es,
        "bot_messages_returning_user_welcome"@,
        "С возвращением, {username}!"@,
    )
    &&& s.bot_messages_returning_user_welcome_image_id == uuid_setting(
        es,
        "bot_messages_returning_user_welcome_image_id"@,
    )
    &&& s.pricing_global_markup == decimal_setting(es, "pricing_global_markup"@, decimal_zero())
    &&& s.pricing_platform_commission == decimal_setting(
        es,
        "pricing_platform_commission"@,
        decimal_zero(),
    )
    &&& s.pricing_gateway_markup == decimal_setting(es, "pricing_gateway_markup"@, decimal_zero())
    &&& s.pricing_gateway_bonus_mock_provider == decimal_setting(
        es,
        "pricing_gateway_bonus_mock_provider"@,
        decimal_zero(),
    )
    &&& s.pricing_gateway_bonus_platform_card == decimal_setting(
        es,
        "pricing_gateway_bonus_platform_card"@,
        decimal_zero(),
    )
    &&& s.pricing_gateway_bonus_platform_sbp == decimal_setting(
        es,
        "pricing_gateway_bonus_platform_sbp"@,
        decimal_zero(),
    )
    &&& s.referral_program_enabled == bool_setting(es, "referral_program_enabled"@, false)
    &&& s.referral_percentage == decimal_setting(es, "referral_percentage"@, decimal_zero())
    &&& s.bot_payment_system_support_operators@.map_values(|p: String| p@) == list_setting(
        es,
        "bot_payment_system_support_operators"@,
    )
    &&& s.bot_about@ == text_setting(es, "bot_about"@, ""@)
    &&& s.bot_description@ == text_setting(es, "bot_description"@, ""@)
}

impl Settings {
    /// The settings the rows of the settings table hold; every setting that
    /// is missing, NULL or unreadable takes its default.
    pub fn from_map(map: &SettingsMap) -> (r: Settings)
        ensures
            settings_from_rows(r, entries_view(map.entries@)),
            forall|b: bool|
                stored_value(entries_view(map.entries@), "referral_program_enabled"@) == Some(
                    #[trigger] bool_text(b),
                ) ==> r.referral_program_enabled == b,
    {
        let zero = DecimalValue { mantissa: 0, scale: 0 };
        Settings {
            bot_messages_support: get_string(map, "bot_messages_support", "Служба поддержки"),
            bot_messages_support_image_id: get_uuid(map, "bot_messages_support_image_id"),
            bot_messages_new_user_welcome: get_string(
                map,
                "bot_messages_new_user_welcome",
                "Добро пожаловать, {username}!",
            ),
            bot_messages_new_user_welcome_image_id: get_uuid(
                map,
                "bot_messages_new_user_welcome_image_id",
            ),
            bot_messages_returning_user_welcome: get_string(
                map,
                "bot_messages_returning_user_welcome",
                "С возвращением, {username}!",
            ),
            bot_messages_returning_user_welcome_image_id: get_uuid(
                map,
                "bot_messages_returning_user_welcome_image_id",
            ),
            pricing_global_markup: get_decimal(map, "pricing_global_markup", zero),
            pricing_platform_commission: get_decimal(map, "pricing_platform_commission", zero),
            pricing_gateway_markup: get_decimal(map, "pricing_gateway_markup", zero),
            pricing_gateway_bonus_mock_provider: get_decimal(
                map,
                "pricing_gateway_bonus_mock_provider",
                zero,
            ),
            pricing_gateway_bonus_platform_card: get_decimal(
                map,
                "pricing_gateway_bonus_platform_card",
                zero,
            ),
            pricing_gateway_bonus_platform_sbp: get_decimal(
                map,
                "pricing_gateway_bonus_platform_sbp",
                zero,
            ),
            referral_program_enabled: get_bool(map, "referral_program_enabled", false),
            referral_percentage: get_decimal(map, "referral_percentage", zero),
            bot_payment_system_support_operators: get_string_vec(
                map,
                "bot_payment_system_support_operators",
            ),
            bot_about: get_string(map, "bot_about", ""),
            bot_description: get_string(map, "bot_description", ""),
        }
    }
}

/// A change of the settings: each field that is `Some` is written; for an
/// image, `Some(None)` clears it.
#[derive(Debug)]
pub struct UpdateSettings {
    pub bot_messages_support: Option<String>,
    pub bot_messages_support_image_id: Option<Option<u128>>,
    pub bot_messages_new_user_welcome: Option<String>,
    pub bot_messages_new_user_welcome_image_id: Option<Option<u128>>,
    pub bot_messages_returning_user_welcome: Option<String>,
    pub bot_messages_returning_user_welcome_image_id: Option<Option<u128>>,
    pub pricing_global_markup: Option<DecimalValue>,
    pub pricing_platform_commission: Option<DecimalValue>,
    pub pricing_gateway_markup: Option<DecimalValue>,
    pub pricing_gateway_bonus_mock_provider: Option<DecimalValue>,
    pub pricing_gateway_bonus_platform_card: Option<DecimalValue>,
    pub pricing_gateway_bonus_platform_sbp: Option<DecimalValue>,
    pub referral_program_enabled: Option<bool>,
    pub referral_percentage: Option<DecimalValue>,
    pub bot_payment_system_support_operators: Option<Vec<String>>,
    pub bot_about: Option<String>,
    pub bot_description: Option<String>,
}

/// What a text field of an update writes: `None` writes nothing.
pub open spec fn text_change(v: Option<String>) -> Option<Option<Seq<char>>> {
    match v {
        Some(t) => Some(Some(t@)),
        None => None,
    }
}

/// What an image field of an update writes: its UUID's text, or NULL.
pub open spec fn uuid_change(v: Option<Option<u128>>) -> Option<Option<Seq<char>>> {
    match v {
        Some(Some(u)) => Some(Some(uuid_text(u))),
        Some(None) => Some(None),
        None => None,
    }
}

/// What a decimal field of an update writes.
pub open spec fn decimal_change(v: Option<DecimalValue>) -> Option<Option<Seq<char>>> {
    match v {
        Some(d) => Some(Some(decimal_text(d))),
        None => None,
    }
}

/// What a boolean field of an update writes.
pub open spec fn bool_change(v: Option<bool>) -> Option<Option<Seq<char>>> {
    match v {
        Some(b) => Some(Some(bool_text(b))),
        None => None,
    }
}

/// What a list field of an update writes: its items joined with commas.
pub open spec fn list_change(v: Option<Vec<String>>) -> Option<Option<Seq<char>>> {
    match v {
        Some(items) => Some(Some(join_text(items@.map_values(|p: String| p@), ','))),
        None => None,
    }
}

/// Every setting key with the change the update makes to it, in the order
/// the update writes them.
pub open spec fn settings_changes(u: UpdateSettings) -> Seq<(Seq<char>, Option<Option<Seq<char>>>)> {
    seq![
        ("bot_messages_support"@, text_change(u.bot_messages_support)),
        ("bot_messages_support_image_id"@, uuid_change(u.bot_messages_support_image_id)),
        ("bot_messages_new_user_welcome"@, text_change(u.bot_messages_new_user_welcome)),
        ("bot_messages_new_user_welcome_image_id"@, uuid_change(u.bot_messages_new_user_welcome_image_id)),
        ("bot_messages_returning_user_welcome"@, text_change(u.bot_messages_returning_user_welcome)),
        ("bot_messages_returning_user_welcome_image_id"@, uuid_change(u.bot_messages_returning_user_welcome_image_id)),
        ("pricing_global_markup"@, decimal_change(u.pricing_global_markup)),
        ("pricing_platform_commission"@, decimal_change(u.pricing_platform_commission)),
        ("pricing_gateway_markup"@, decimal_change(u.pricing_gateway_markup)),
        ("pricing_gateway_bonus_mock_provider"@, decimal_change(u.pricing_gateway_bonus_mock_provider)),
        ("pricing_gateway_bonus_platform_card"@, decimal_change(u.pricing_gateway_bonus_platform_card)),
        ("pricing_gateway_bonus_platform_sbp"@, decimal_change(u.pricing_gateway_bonus_platform_sbp)),
        ("referral_program_enabled"@, bool_change(u.referral_program_enabled)),
        ("referral_percentage"@, decimal_change(u.referral_percentage)),
        ("bot_payment_system_support_operators"@, list_change(u.bot_payment_system_support_operators)),
        ("bot_about"@, text_change(u.bot_about)),
        ("bot_description"@, text_change(u.bot_description)),
    ]
}

/// The rows a list of changes writes, in order: one per change that is made.
pub open spec fn writes_of(cs: Seq<(Seq<char>, Option<Option<Seq<char>>>)>) -> Seq<
    (Seq<char>, Option<Seq<char>>),
>
    decreases cs.len(),
{
    if cs.len() == 0 {
        Seq::empty()
    } else {
        let prev = writes_of(cs.drop_last());
        match cs.last().1 {
            Some(v) => prev.push((cs.last().0, v)),
            None => prev,
        }
    }
}

/// Every decimal of the update can be written.
pub open spec fn update_writable(u: UpdateSettings) -> bool {
    &&& (u.pricing_global_markup matches Some(d) ==> decimal_valid(d))
    &&& (u.pricing_platform_commission matches Some(d) ==> decimal_valid(d))
    &&& (u.pricing_gateway_markup matches Some(d) ==> decimal_valid(d))
    &&& (u.pricing_gateway_bonus_mock_provider matches Some(d) ==> decimal_valid(d))
    &&& (u.pricing_gateway_bonus_platform_card matches Some(d) ==> decimal_valid(d))
    &&& (u.pricing_gateway_bonus_platform_sbp matches Some(d) ==> decimal_valid(d))
    &&& (u.referral_percentage matches Some(d) ==> decimal_valid(d))
}

/// The items joined with `sep` between them (`[String]::join`).
pub fn join_strings(items: &Vec<String>, sep: &str) -> (r: String)
    requires
        sep@.len() == 1,
    ensures
        r@ == join_text(items@.map_values(|p: String| p@), sep@[0]),
{
    let ghost parts = items@.map_values(|p: String| p@);
    let mut r = String::new();
    let mut i: usize = 0;
    while i < items.len()
        invariant
            i <= items@.len(),
            sep@.len() == 1,
            parts == items@.map_values(|p: String| p@),
            r@ == join_text(parts.take(i as int), sep@[0]),
        decreases items.len() - i,
    {
        proof {
            assert(parts.take(i + 1).drop_last() =~= parts.take(i as int));
            assert(sep@ =~= seq![sep@[0]]);
        }
        if i > 0 {
            r.append(sep);
        }
        r.append(items[i].as_str());
        proof {
            if i == 0 {
                assert(parts.take(1) =~= seq![items@[0]@]);
            }
        }
        i = i + 1;
    }
    proof {
        assert(parts.take(items@.len() as int) =~= parts);
    }
    r
}

/// The rows of one more change: those of the changes before it, then its
/// own row if it writes one.
proof fn lemma_writes_step(cs: Seq<(Seq<char>, Option<Option<Seq<char>>>)>, i: int)
    requires
        0 <= i < cs.len(),
    ensures
        writes_of(cs.take(i + 1)) == match cs[i].1 {
            Some(v) => writes_of(cs.take(i)).push((cs[i].0, v)),
            None => writes_of(cs.take(i)),
        },
{
    assert(cs.take(i + 1).drop_last() =~= cs.take(i));
    assert(cs.take(i + 1).last() == cs[i]);
}

/// Appends the row of a text change.
fn push_text_change(ws: &mut Vec<(String, Option<String>)>, key: &str, v: &Option<String>)
    ensures
        entries_view(final(ws)@) == match text_change(*v) {
            Some(c) => entries_view(old(ws)@).push((key@, c)),
            None => entries_view(old(ws)@),
        },
{
    if let Some(t) = v {
        ws.push((string_of(key), Some(t.clone())));
        assert(entries_view(ws@) =~= entries_view(old(ws)@).push((key@, Some(t@))));
    }
}

/// Appends the row of a decimal change.
fn push_decimal_change(ws: &mut Vec<(String, Option<String>)>, key: &str, v: Option<DecimalValue>)
    requires
        v matches Some(d) ==> decimal_valid(d),
    ensures
        entries_view(final(ws)@) == match decimal_change(v) {
            Some(c) => entries_view(old(ws)@).push((key@, c)),
            None => entries_view(old(ws)@),
        },
        v matches Some(d) ==> decimal_parse(decimal_text(d)) == Some(d),
{
    if let Some(d) = v {
        ws.push((string_of(key), Some(format_decimal(d))));
        assert(entries_view(ws@) =~= entries_view(old(ws)@).push((key@, Some(decimal_text(d)))));
    }
}

/// Appends the row of a boolean change.
fn push_bool_change(ws: &mut Vec<(String, Option<String>)>, key: &str, v: Option<bool>)
    ensures
        entries_view(final(ws)@) == match bool_change(v) {
            Some(c) => entries_view(old(ws)@).push((key@, c)),
            None => entries_view(old(ws)@),
        },
{
    if let Some(b) = v {
        ws.push((string_of(key), Some(format_bool(b))));
        assert(entries_view(ws@) =~= entries_view(old(ws)@).push((key@, Some(bool_text(b)))));
    }
}

/// Appends the row of a list change: the items joined with commas.
fn push_list_change(ws: &mut Vec<(String, Option<String>)>, key: &str, v: &Option<Vec<String>>)
    ensures
        entries_view(final(ws)@) == match list_change(*v) {
            Some(c) => entries_view(old(ws)@).push((key@, c)),
            None => entries_view(old(ws)@),
        },
{
    if let Some(items) = v {
        proof {
            reveal_strlit(",");
        }
        let joined = join_strings(items, ",");
        ws.push((string_of(key), Some(joined)));
        assert(entries_view(ws@) =~= entries_view(old(ws)@).push(
            (key@, Some(join_text(items@.map_values(|p: String| p@), ','))),
        ));
    }
}

/// Appends the row of an image change; a set image's UUID reads back as itself.
fn push_uuid_change(ws: &mut Vec<(String, Option<String>)>, key: &str, v: Option<Option<u128>>)
    ensures
        entries_view(final(ws)@) == match uuid_change(v) {
            Some(c) => entries_view(old(ws)@).push((key@, c)),
            None => entries_view(old(ws)@),
        },
        v matches Some(Some(u)) ==> uuid_parse(uuid_text(u)) == Some(u),
{
    match v {
        Some(Some(u)) => {
            ws.push((string_of(key), Some(format_uuid(u))));
            assert(entries_view(ws@) =~= entries_view(old(ws)@).push((key@, Some(uuid_text(u)))));
        },
        Some(None) => {
            ws.push((string_of(key), None));
            assert(entries_view(ws@) =~= entries_view(old(ws)@).push((key@, None)));
        },
        None => {},
    }
}

/// The rows an update writes, in the order it writes them, each an upsert of
/// its key. The UUIDs it writes read back as themselves.
pub fn settings_writes(update: &UpdateSettings) -> (r: Vec<(String, Option<String>)>)
    requires
        update_writable(*update),
    ensures
        entries_view(r@) == writes_of(settings_changes(*update)),
        update.bot_messages_support_image_id matches Some(Some(u)) ==> uuid_parse(uuid_text(u))
            == Some(u),
        update.bot_messages_new_user_welcome_image_id matches Some(Some(u)) ==> uuid_parse(
            uuid_text(u),
        ) == Some(u),
        update.bot_messages_returning_user_welcome_image_id matches Some(Some(u)) ==> uuid_parse(
            uuid_text(u),
        ) == Some(u),
        update.pricing_global_markup matches Some(d) ==> decimal_parse(decimal_text(d)) == Some(d),
        update.pricing_platform_commission matches Some(d) ==> decimal_parse(decimal_text(d)) == Some(d),
        update.pricing_gateway_markup matches Some(d) ==> decimal_parse(decimal_text(d)) == Some(d),
        update.pricing_gateway_bonus_mock_provider matches Some(d) ==> decimal_parse(decimal_text(d)) == Some(d),
        update.pricing_gateway_bonus_platform_card matches Some(d) ==> decimal_parse(decimal_text(d)) == Some(d),
        update.pricing_gateway_bonus_platform_sbp matches Some(d) ==> decimal_parse(decimal_text(d)) == Some(d),
        update.referral_percentage matches Some(d) ==> decimal_parse(decimal_text(d)) == Some(d),
{
    let ghost cs = settings_changes(*update);
    let mut ws: Vec<(String, Option<String>)> = Vec::new();
    assert(entries_view(ws@) =~= writes_of(cs.take(0)));
    push_text_change(&mut ws, "bot_messages_support", &update.bot_messages_support);
    proof {
        lemma_writes_step(cs, 0);
    }
    push_uuid_change(&mut ws, "bot_messages_support_image_id", update.bot_messages_support_image_id);
    proof {
        lemma_writes_step(cs, 1);
    }
    push_text_change(&mut ws, "bot_messages_new_user_welcome", &update.bot_messages_new_user_welcome);
    proof {
        lemma_writes_step(cs, 2);
    }
    push_uuid_change(
        &mut ws,
        "bot_messages_new_user_welcome_image_id",
        update.bot_messages_new_user_welcome_image_id,
    );
    proof {
        lemma_writes_step(cs, 3);
    }
    push_text_change(
        &mut ws,
        "bot_messages_returning_user_welcome",
        &update.bot_messages_returning_user_welcome,
    );
    proof {
        lemma_writes_step(cs, 4);
    }
    push_uuid_change(
        &mut ws,
        "bot_messages_returning_user_welcome_image_id",
        update.bot_messages_returning_user_welcome_image_id,
    );
    proof {
        lemma_writes_step(cs, 5);
    }
    push_decimal_change(&mut ws, "pricing_global_markup", update.pricing_global_markup);
    proof {
        lemma_writes_step(cs, 6);
    }
    push_decimal_change(&mut ws, "pricing_platform_commission", update.pricing_platform_commission);
    proof {
        lemma_writes_step(cs, 7);
    }
    push_decimal_change(&mut ws, "pricing_gateway_markup", update.pricing_gateway_markup);
    proof {
        lemma_writes_step(cs, 8);
    }
    push_decimal_change(
        &mut ws,
        "pricing_gateway_bonus_mock_provider",
        update.pricing_gateway_bonus_mock_provider,
    );
    proof {
        lemma_writes_step(cs, 9);
    }
    push_decimal_change(
        &mut ws,
        "pricing_gateway_bonus_platform_card",
        update.pricing_gateway_bonus_platform_card,
    );
    proof {
        lemma_writes_step(cs, 10);
    }
    push_decimal_change(
        &mut ws,
        "pricing_gateway_bonus_platform_sbp",
        update.pricing_gateway_bonus_platform_sbp,
    );
    proof {
        lemma_writes_step(cs, 11);
    }
    push_bool_change(&mut ws, "referral_program_enabled", update.referral_program_enabled);
    proof {
        lemma_writes_step(cs, 12);
    }
    push_decimal_change(&mut ws, "referral_percentage", update.referral_percentage);
    proof {
        lemma_writes_step(cs, 13);
    }
    push_list_change(
        &mut ws,
        "bot_payment_system_support_operators",
        &update.bot_payment_system_support_operators,
    );
    proof {
        lemma_writes_step(cs, 14);
    }
    push_text_change(&mut ws, "bot_about", &update.bot_about);
    proof {
        lemma_writes_step(cs, 15);
    }
    push_text_change(&mut ws, "bot_description", &update.bot_description);
    proof {
        lemma_writes_step(cs, 16);
    }
    assert(cs.take(17) =~= cs);
    ws
}

/// After the rows of some changes, a key whose change is the only one with
/// that key reads what the change wrote, or what it read before when the
/// change writes nothing.
pub proof fn lemma_read_after_changes(
    es: Seq<(Seq<char>, Option<Seq<char>>)>,
    cs: Seq<(Seq<char>, Option<Option<Seq<char>>>)>,
    j: int,
)
    requires
        0 <= j < cs.len(),
        forall|i: int| 0 <= i < cs.len() && i != j ==> cs[i].0 != cs[j].0,
    ensures
        stored_value(es + writes_of(cs), cs[j].0) == match cs[j].1 {
            Some(v) => v,
            None => stored_value(es, cs[j].0),
        },
    decreases cs.len(),
{
    let prev = cs.drop_last();
    let k = cs[j].0;
    if j == cs.len() - 1 {
        lemma_untouched_after_changes(es, prev, k);
        match cs.last().1 {
            Some(v) => {
                assert(es + writes_of(cs) =~= (es + writes_of(prev)).push((k, v)));
            },
            None => {
                assert(es + writes_of(cs) =~= es + writes_of(prev));
            },
        }
    } else {
        lemma_read_after_changes(es, prev, j);
        match cs.last().1 {
            Some(v) => {
                assert(es + writes_of(cs) =~= (es + writes_of(prev)).push((cs.last().0, v)));
                assert((es + writes_of(prev)).push((cs.last().0, v)).drop_last() =~= es
                    + writes_of(prev));
            },
            None => {
                assert(es + writes_of(cs) =~= es + writes_of(prev));
            },
        }
    }
}

/// Changes of other keys leave what a key reads unchanged.
proof fn lemma_untouched_after_changes(
    es: Seq<(Seq<char>, Option<Seq<char>>)>,
    cs: Seq<(Seq<char>, Option<Option<Seq<char>>>)>,
    k: Seq<char>,
)
    requires
        forall|i: int| 0 <= i < cs.len() ==> cs[i].0 != k,
    ensures
        stored_value(es + writes_of(cs), k) == stored_value(es, k),
    decreases cs.len(),
{
    if cs.len() == 0 {
        assert(es + writes_of(cs) =~= es);
    } else {
        let prev = cs.drop_last();
        lemma_untouched_after_changes(es, prev, k);
        match cs.last().1 {
            Some(v) => {
                assert(es + writes_of(cs) =~= (es + writes_of(prev)).push((cs.last().0, v)));
                assert((es + writes_of(prev)).push((cs.last().0, v)).drop_last() =~= es
                    + writes_of(prev));
            },
            None => {
                assert(es + writes_of(cs) =~= es + writes_of(prev));
            },
        }
    }
}

/// The key of change `j` of an update is the key of no other change.
proof fn lemma_setting_key_unique(u: UpdateSettings, j: int)
    requires
        0 <= j < 17,
    ensures
        forall|i: int|
            0 <= i < 17 && i != j ==> (#[trigger] settings_changes(u)[i]).0 != settings_changes(
                u,
            )[j].0,
{
    reveal_strlit("bot_messages_support");
    reveal_strlit("bot_messages_support_image_id");
    reveal_strlit("bot_messages_new_user_welcome");
    reveal_strlit("bot_messages_new_user_welcome_image_id");
    reveal_strlit("bot_messages_returning_user_welcome");
    reveal_strlit("bot_messages_returning_user_welcome_image_id");
    reveal_strlit("pricing_global_markup");
    reveal_strlit("pricing_platform_commission");
    reveal_strlit("pricing_gateway_markup");
    reveal_strlit("pricing_gateway_bonus_mock_provider");
    reveal_strlit("pricing_gateway_bonus_platform_card");
    reveal_strlit("pricing_gateway_bonus_platform_sbp");
    reveal_strlit("referral_program_enabled");
    reveal_strlit("referral_percentage");
    reveal_strlit("bot_payment_system_support_operators");
    reveal_strlit("bot_about");
    reveal_strlit("bot_description");
    let cs = settings_changes(u);
    assert(cs[0].0.len() == 20);
    assert(cs[1].0.len() == 29);
    assert(cs[2].0.len() == 29);
    assert(cs[3].0.len() == 38);
    assert(cs[4].0.len() == 35);
    assert(cs[5].0.len() == 44);
    assert(cs[6].0.len() == 21);
    assert(cs[7].0.len() == 27);
    assert(cs[8].0.len() == 22);
    assert(cs[9].0.len() == 35);
    assert(cs[10].0.len() == 35);
    assert(cs[11].0.len() == 34);
    assert(cs[12].0.len() == 24);
    assert(cs[13].0.len() == 19);
    assert(cs[14].0.len() == 36);
    assert(cs[15].0.len() == 9);
    assert(cs[16].0.len() == 15);
    assert(cs[1].0[13] != cs[2].0[13]);
    assert(cs[4].0[0] != cs[9].0[0]);
    assert(cs[4].0[0] != cs[10].0[0]);
    assert(cs[9].0[22] != cs[10].0[22]);
    assert forall|i: int| 0 <= i < 17 && i != j implies (#[trigger] cs[i]).0 != cs[j].0 by {
        assert(i == 0 || i == 1 || i == 2 || i == 3 || i == 4 || i == 5 || i == 6 || i == 7 || i == 8 || i == 9 || i == 10 || i == 11 || i == 12 || i == 13 || i == 14 || i == 15 || i == 16);
        assert(j == 0 || j == 1 || j == 2 || j == 3 || j == 4 || j == 5 || j == 6 || j == 7 || j == 8 || j == 9 || j == 10 || j == 11 || j == 12 || j == 13 || j == 14 || j == 15 || j == 16);
    }
}

/// Keys an update does not name keep what they read: their rows are left as
/// they were.
pub proof fn lemma_unnamed_keys_unchanged(
    es: Seq<(Seq<char>, Option<Seq<char>>)>,
    u: UpdateSettings,
    k: Seq<char>,
)
    requires
        forall|j: int| 0 <= j < 17 ==> (#[trigger] settings_changes(u)[j]).0 != k,
    ensures
        stored_value(es + writes_of(settings_changes(u)), k) == stored_value(es, k),
{
    assert(settings_changes(u).len() == 17);
    lemma_untouched_after_changes(es, settings_changes(u), k);
}

/// What a key reads after its change: the written value, or what it read before.
pub open spec fn read_after_change(
    es: Seq<(Seq<char>, Option<Seq<char>>)>,
    c: (Seq<char>, Option<Option<Seq<char>>>),
) -> Option<Seq<char>> {
    match c.1 {
        Some(v) => v,
        None => stored_value(es, c.0),
    }
}

/// What is read back after an update: every key the update changes reads
/// what the update wrote for it (NULL for a cleared image), and every key
/// it leaves alone reads what it read before.
pub proof fn lemma_read_after_update(es: Seq<(Seq<char>, Option<Seq<char>>)>, u: UpdateSettings)
    ensures
        forall|j: int|
            0 <= j < 17 ==> stored_value(
                es + writes_of(settings_changes(u)),
                (#[trigger] settings_changes(u)[j]).0,
            ) == read_after_change(es, settings_changes(u)[j]),
{
    assert forall|j: int| 0 <= j < 17 implies stored_value(
        es + writes_of(settings_changes(u)),
        (#[trigger] settings_changes(u)[j]).0,
    ) == read_after_change(es, settings_changes(u)[j]) by {
        lemma_setting_key_unique(u, j);
        lemma_read_after_changes(es, settings_changes(u), j);
    }
}

/// What the settings read after an update over the rows `before`: a field
/// the update sets reads the value it set (a cleared image reads none, a list
/// reads its items joined and split again at commas); a field the update
/// leaves alone reads what it read before.
pub open spec fn settings_read_back(
    r: Settings,
    u: UpdateSettings,
    before: Seq<(Seq<char>, Option<Seq<char>>)>,
) -> bool {
    &&& match u.bot_messages_support {
        Some(t) => r.bot_messages_support@ == t@,
        None => r.bot_messages_support@ == text_setting(before, "bot_messages_support"@, "Служба поддержки"@),
    }
    &&& match u.bot_messages_new_user_welcome {
        Some(t) => r.bot_messages_new_user_welcome@ == t@,
        None => r.bot_messages_new_user_welcome@ == text_setting(before, "bot_messages_new_user_welcome"@, "Добро пожаловать, {username}!"@),
    }
    &&& match u.bot_messages_returning_user_welcome {
        Some(t) => r.bot_messages_returning_user_welcome@ == t@,
        None => r.bot_messages_returning_user_welcome@ == text_setting(before, "bot_messages_returning_user_welcome"@, "С возвращением, {username}!"@),
    }
    &&& match u.bot_about {
        Some(t) => r.bot_about@ == t@,
        None => r.bot_about@ == text_setting(before, "bot_about"@, ""@),
    }
    &&& match u.bot_description {
        Some(t) => r.bot_description@ == t@,
        None => r.bot_description@ == text_setting(before, "bot_description"@, ""@),
    }
    &&& match u.bot_messages_support_image_id {
        Some(v) => r.bot_messages_support_image_id == v,
        None => r.bot_messages_support_image_id == uuid_setting(before, "bot_messages_support_image_id"@),
    }
    &&& match u.bot_messages_new_user_welcome_image_id {
        Some(v) => r.bot_messages_new_user_welcome_image_id == v,
        None => r.bot_messages_new_user_welcome_image_id == uuid_setting(before, "bot_messages_new_user_welcome_image_id"@),
    }
    &&& match u.bot_messages_returning_user_welcome_image_id {
        Some(v) => r.bot_messages_returning_user_welcome_image_id == v,
        None => r.bot_messages_returning_user_welcome_image_id == uuid_setting(before, "bot_messages_returning_user_welcome_image_id"@),
    }
    &&& match u.pricing_global_markup {
        Some(d) => r.pricing_global_markup == d,
        None => r.pricing_global_markup == decimal_setting(before, "pricing_global_markup"@, decimal_zero()),
    }
    &&& match u.pricing_platform_commission {
        Some(d) => r.pricing_platform_commission == d,
        None => r.pricing_platform_commission == decimal_setting(before, "pricing_platform_commission"@, decimal_zero()),
    }
    &&& match u.pricing_gateway_markup {
        Some(d) => r.pricing_gateway_markup == d,
        None => r.pricing_gateway_markup == decimal_setting(before, "pricing_gateway_markup"@, decimal_zero()),
    }
    &&& match u.pricing_gateway_bonus_mock_provider {
        Some(d) => r.pricing_gateway_bonus_mock_provider == d,
        None => r.pricing_gateway_bonus_mock_provider == decimal_setting(before, "pricing_gateway_bonus_mock_provider"@, decimal_zero()),
    }
    &&& match u.pricing_gateway_bonus_platform_card {
        Some(d) => r.pricing_gateway_bonus_platform_card == d,
        None => r.pricing_gateway_bonus_platform_card == decimal_setting(before, "pricing_gateway_bonus_platform_card"@, decimal_zero()),
    }
    &&& match u.pricing_gateway_bonus_platform_sbp {
        Some(d) => r.pricing_gateway_bonus_platform_sbp == d,
        None => r.pricing_gateway_bonus_platform_sbp == decimal_setting(before, "pricing_gateway_bonus_platform_sbp"@, decimal_zero()),
    }
    &&& match u.referral_percentage {
        Some(d) => r.referral_percentage == d,
        None => r.referral_percentage == decimal_setting(before, "referral_percentage"@, decimal_zero()),
    }
    &&& match u.referral_program_enabled {
        Some(b) => r.referral_program_enabled == b,
        None => r.referral_program_enabled == bool_setting(before, "referral_program_enabled"@, false),
    }
    &&& match u.bot_payment_system_support_operators {
        Some(items) => r.bot_payment_system_support_operators@.map_values(|p: String| p@)
            == split_text(join_text(items@.map_values(|p: String| p@), ','), ','),
        None => r.bot_payment_system_support_operators@.map_values(|p: String| p@)
            == list_setting(before, "bot_payment_system_support_operators"@),
    }
}

impl SettingsMap {
    /// Applies an update as the settings repository does: upserts the rows
    /// the update writes, then reads the settings back from the rows.
    pub fn update(&mut self, update: &UpdateSettings) -> (r: Settings)
        requires
            update_writable(*update),
        ensures
            entries_view(final(self).entries@) == entries_view(old(self).entries@) + writes_of(
                settings_changes(*update),
            ),
            settings_from_rows(r, entries_view(final(self).entries@)),
            settings_read_back(r, *update, entries_view(old(self).entries@)),
    {
        let ghost before = entries_view(self.entries@);
        let mut writes = settings_writes(update);
        let ghost w = writes@;
        self.entries.append(&mut writes);
        proof {
            assert(entries_view(self.entries@) =~= before + entries_view(w));
            lemma_read_after_update(before, *update);
        }
        let r = Settings::from_map(self);
        proof {
            let cs = settings_changes(*update);
            let after = entries_view(self.entries@);
            assert(stored_value(after, cs[0].0) == read_after_change(before, cs[0]));
            assert(stored_value(after, cs[1].0) == read_after_change(before, cs[1]));
            assert(stored_value(after, cs[2].0) == read_after_change(before, cs[2]));
            assert(stored_value(after, cs[3].0) == read_after_change(before, cs[3]));
            assert(stored_value(after, cs[4].0) == read_after_change(before, cs[4]));
            assert(stored_value(after, cs[5].0) == read_after_change(before, cs[5]));
            assert(stored_value(after, cs[6].0) == read_after_change(before, cs[6]));
            assert(stored_value(after, cs[7].0) == read_after_change(before, cs[7]));
            assert(stored_value(after, cs[8].0) == read_after_change(before, cs[8]));
            assert(stored_value(after, cs[9].0) == read_after_change(before, cs[9]));
            assert(stored_value(after, cs[10].0) == read_after_change(before, cs[10]));
            assert(stored_value(after, cs[11].0) == read_after_change(before, cs[11]));
            assert(stored_value(after, cs[12].0) == read_after_change(before, cs[12]));
            assert(stored_value(after, cs[13].0) == read_after_change(before, cs[13]));
            assert(stored_value(after, cs[14].0) == read_after_change(before, cs[14]));
            assert(stored_value(after, cs[15].0) == read_after_change(before, cs[15]));
            assert(stored_value(after, cs[16].0) == read_after_change(before, cs[16]));
        }
        r
    }
}

} // verus!
