//! First-run setup: the checks on the shop and owner details, the settings
//! the setup writes, and when the initial administrator is seeded.
use vstd::prelude::*;

use crate::error::{conflict, validation, AppError};
use crate::text::{
    chars_of, is_ascii_alnum, is_ascii_upper, is_blank, lower_of, owned, push_char, str_eq, to_lower, to_upper,
    trim, trim_str, upper_of, utf8_byte_len, utf8_len,
};

verus! {

/// The settings key that marks setup as done.
pub open spec fn first_run_key() -> Seq<char> {
    "system.first_run_complete"@
}

/// What the setup wizard collects.
#[derive(Debug)]
pub struct FirstRunInput {
    pub shop_name: String,
    pub shop_address: String,
    pub shop_phone: String,
    pub shop_email: String,
    pub currency: String,
    pub timezone: String,
    pub invoice_prefix: Option<String>,
    pub backup_location: Option<String>,
    pub owner_username: String,
    pub owner_full_name: String,
    pub owner_password: String,
}

// ---------------------------------------------------------------------------
// Status
// ---------------------------------------------------------------------------

/// `s` with every leading and trailing `"` removed.
pub open spec fn strip_quotes(s: Seq<char>) -> Seq<char>
    decreases s.len(),
{
    if s.len() > 0 && s[0] == '"' {
        strip_quotes(s.drop_first())
    } else if s.len() > 0 && s.last() == '"' {
        strip_quotes(s.drop_last())
    } else {
        s
    }
}

fn strip_quotes_text(s: &str) -> (r: String)
    ensures
        r@ == strip_quotes(s@),
{
    let v = chars_of(s);
    let mut lo: usize = 0;
    let mut hi: usize = v.len();
    assert(v@.subrange(0, v@.len() as int) =~= v@);
    while lo < hi && v[lo] == '"'
        invariant
            lo <= hi == v.len(),
            v@ == s@,
            strip_quotes(s@) == strip_quotes(v@.subrange(lo as int, hi as int)),
        decreases hi - lo,
    {
        assert(v@.subrange(lo as int, hi as int).drop_first() =~= v@.subrange(lo + 1, hi as int));
        lo += 1;
    }
    while lo < hi && v[hi - 1] == '"'
        invariant
            lo <= hi <= v.len(),
            v@ == s@,
            lo < hi ==> v@[lo as int] != '"',
            strip_quotes(s@) == strip_quotes(v@.subrange(lo as int, hi as int)),
        decreases hi - lo,
    {
        assert(v@.subrange(lo as int, hi as int).drop_last() =~= v@.subrange(lo as int, hi - 1));
        hi -= 1;
    }
    crate::text::string_of_range(&v, lo, hi)
}

/// Whether setup is done: the stored flag, quotes stripped, reads `true`;
/// no flag stored reads as not done.
pub open spec fn setup_done(flag: Option<String>) -> bool {
    match flag {
        Some(v) => strip_quotes(v@) == "true"@,
        None => false,
    }
}

#[derive(Debug)]
pub struct FirstRunStatus {
    pub required: bool,
    pub complete: bool,
    pub has_users: bool,
}

pub fn first_run_status(flag: Option<String>, user_count: i64) -> (r: FirstRunStatus)
    ensures
        r.complete == setup_done(flag),
        r.required == !setup_done(flag),
        r.has_users == (user_count > 0),
{
    let complete = match &flag {
        Some(v) => {
            let s = strip_quotes_text(v.as_str());
            str_eq(s.as_str(), "true")
        },
        None => {
            proof {
                reveal_strlit("false");
                reveal_strlit("true");
                assert(strip_quotes("false"@) == "false"@);
                assert("false"@ != "true"@) by {
                    assert("false"@.len() != "true"@.len());
                }
            }
            false
        },
    };
    FirstRunStatus { required: !complete, complete, has_users: user_count > 0 }
}

// ---------------------------------------------------------------------------
// Checks
// ---------------------------------------------------------------------------

pub open spec fn all_ascii_upper(s: Seq<char>) -> bool {
    forall|i: int| 0 <= i < s.len() ==> is_ascii_upper(#[trigger] s[i])
}

pub open spec fn prefix_char(c: char) -> bool {
    is_ascii_alnum(c) || c == '/' || c == '-' || c == '_' || c == '.'
}

pub open spec fn username_char(c: char) -> bool {
    is_ascii_alnum(c) || c == '.' || c == '_' || c == '-'
}

pub open spec fn all_chars(s: Seq<char>, p: spec_fn(char) -> bool) -> bool {
    forall|i: int| 0 <= i < s.len() ==> p(#[trigger] s[i])
}

/// An optional text, trimmed, with a blank one taken as not given.
pub open spec fn given_text(value: Option<String>) -> Option<Seq<char>> {
    match value {
        Some(v) => if trim(v@).len() == 0 {
            None
        } else {
            Some(trim(v@))
        },
        None => None,
    }
}

/// Whether a path text is absolute on this platform.
pub uninterp spec fn absolute_path(path: Seq<char>) -> bool;

/// `Path::is_absolute` of std on the text. The result is named, not
/// described.
#[verifier::external_body]
fn path_is_absolute(path: &str) -> (r: bool)
    ensures
        r == absolute_path(path@),
{
    std::path::Path::new(path).is_absolute()
}

/// Why the shop details are refused, checked in this order.
pub open spec fn shop_fault(input: FirstRunInput) -> Option<Seq<char>> {
    let name = trim(input.shop_name@);
    let currency = upper_of(trim(input.currency@));
    let timezone = trim(input.timezone@);
    if name.len() == 0 || name.len() > 100 {
        Some("shop name is required and must be 100 characters or fewer"@)
    } else if utf8_len(currency) != 3 || !all_ascii_upper(currency) {
        Some("currency must be a 3-letter code (e.g. PKR)"@)
    } else if timezone.len() == 0 || utf8_len(timezone) > 64 {
        Some("timezone is required and must be 64 characters or fewer"@)
    } else if (match given_text(input.invoice_prefix) {
        Some(p) => p.len() > 16 || !all_chars(p, |c: char| prefix_char(c)),
        None => false,
    }) {
        Some(
            "invoice prefix must be 1-16 characters using letters, digits, '/', '-', '_' or '.'"@,
        )
    } else if (match given_text(input.backup_location) {
        Some(b) => !absolute_path(b),
        None => false,
    }) {
        Some("backup location must be an absolute folder path"@)
    } else {
        None
    }
}

/// The shop details after the checks.
#[derive(Debug)]
pub struct ShopSetup {
    pub shop_name: String,
    pub currency: String,
    pub timezone: String,
    pub invoice_prefix: Option<String>,
    pub backup_location: Option<String>,
    pub address: String,
    pub phone: String,
    pub email: String,
}

fn all_match(s: &str, prefix_rule: bool) -> (r: bool)
    ensures
        prefix_rule ==> r == all_chars(s@, |c: char| prefix_char(c)),
        !prefix_rule ==> r == all_chars(s@, |c: char| username_char(c)),
{
    let v = chars_of(s);
    let mut i: usize = 0;
    while i < v.len()
        invariant
            i <= v.len(),
            v@ == s@,
            prefix_rule ==> forall|j: int| 0 <= j < i ==> prefix_char(#[trigger] v@[j]),
            !prefix_rule ==> forall|j: int| 0 <= j < i ==> username_char(#[trigger] v@[j]),
        decreases v.len() - i,
    {
        let c = v[i];
        let alnum = ('a' <= c && c <= 'z') || ('A' <= c && c <= 'Z') || ('0' <= c && c <= '9');
        let ok = if prefix_rule {
            alnum || c == '/' || c == '-' || c == '_' || c == '.'
        } else {
            alnum || c == '.' || c == '_' || c == '-'
        };
        if !ok {
            return false;
        }
        i += 1;
    }
    true
}

fn all_upper(s: &str) -> (r: bool)
    ensures
        r == all_ascii_upper(s@),
{
    let v = chars_of(s);
    let mut i: usize = 0;
    while i < v.len()
        invariant
            i <= v.len(),
            v@ == s@,
            forall|j: int| 0 <= j < i ==> is_ascii_upper(#[trigger] v@[j]),
        decreases v.len() - i,
    {
        if !('A' <= v[i] && v[i] <= 'Z') {
            return false;
        }
        i += 1;
    }
    true
}

fn given(value: &Option<String>) -> (r: Option<String>)
    ensures
        match given_text(*value) {
            Some(t) => r matches Some(s) && s@ == t,
            None => r is None,
        },
{
    match value {
        Some(v) => {
            let t = trim_str(v.as_str());
            if t.unicode_len() == 0 {
                None
            } else {
                Some(t)
            }
        },
        None => None,
    }
}

/// The shop details: a name of at most 100 characters, a three-letter
/// upper-case currency code, a timezone of at most 64 bytes, an optional
/// invoice prefix of at most 16 letters, digits, `/`, `-`, `_` or `.`, and
/// an optional backup folder given as an absolute path.
pub fn check_shop_setup(input: &FirstRunInput) -> (r: Result<ShopSetup, AppError>)
    ensures
        match shop_fault(*input) {
            Some(msg) => r matches Err(AppError::Validation(m)) && m@ == msg,
            None => r matches Ok(s) && {
                &&& s.shop_name@ == trim(input.shop_name@)
                &&& s.currency@ == upper_of(trim(input.currency@))
                &&& s.timezone@ == trim(input.timezone@)
                &&& match given_text(input.invoice_prefix) {
                    Some(p) => s.invoice_prefix matches Some(x) && x@ == p,
                    None => s.invoice_prefix is None,
                }
                &&& match given_text(input.backup_location) {
                    Some(b) => s.backup_location matches Some(x) && x@ == b,
                    None => s.backup_location is None,
                }
                &&& s.address@ == trim(input.shop_address@)
                &&& s.phone@ == trim(input.shop_phone@)
                &&& s.email@ == trim(input.shop_email@)
            },
        },
{
    let shop_name = trim_str(input.shop_name.as_str());
    let n = shop_name.unicode_len();
    if n == 0 || n > 100 {
        return Err(validation("shop name is required and must be 100 characters or fewer"));
    }
    let trimmed_currency = trim_str(input.currency.as_str());
    let currency = to_upper(trimmed_currency.as_str());
    if utf8_byte_len(currency.as_str()) != 3 || !all_upper(currency.as_str()) {
        return Err(validation("currency must be a 3-letter code (e.g. PKR)"));
    }
    let timezone = trim_str(input.timezone.as_str());
    if timezone.unicode_len() == 0 || utf8_byte_len(timezone.as_str()) > 64 {
        return Err(validation("timezone is required and must be 64 characters or fewer"));
    }
    let invoice_prefix = given(&input.invoice_prefix);
    match &invoice_prefix {
        Some(p) => {
            if p.unicode_len() > 16 || !all_match(p.as_str(), true) {
                return Err(
                    validation(
                        "invoice prefix must be 1-16 characters using letters, digits, '/', '-', '_' or '.'",
                    ),
                );
            }
        },
        None => {},
    }
    let backup_location = given(&input.backup_location);
    match &backup_location {
        Some(b) => {
            if !path_is_absolute(b.as_str()) {
                return Err(validation("backup location must be an absolute folder path"));
            }
        },
        None => {},
    }
    Ok(
        ShopSetup {
            shop_name,
            currency,
            timezone,
            invoice_prefix,
            backup_location,
            address: trim_str(input.shop_address.as_str()),
            phone: trim_str(input.shop_phone.as_str()),
            email: trim_str(input.shop_email.as_str()),
        },
    )
}

/// Why the owner's details are refused, checked in this order.
pub open spec fn owner_fault(input: FirstRunInput) -> Option<Seq<char>> {
    let username = lower_of(trim(input.owner_username@));
    let full_name = trim(input.owner_full_name@);
    if utf8_len(username) < 3 || !all_chars(username, |c: char| username_char(c)) {
        Some("owner username must be 3+ characters using letters, digits, '.', '_' or '-'"@)
    } else if full_name.len() == 0 || full_name.len() > 200 {
        Some("owner full name is required and must be 200 characters or fewer"@)
    } else {
        None
    }
}

/// The owner's username (trimmed, lower-cased: at least three bytes of
/// letters, digits, `.`, `_` or `-`) and full name (at most 200 characters).
pub fn check_owner_setup(input: &FirstRunInput) -> (r: Result<(String, String), AppError>)
    ensures
        match owner_fault(*input) {
            Some(msg) => r matches Err(AppError::Validation(m)) && m@ == msg,
            None => r matches Ok((u, f)) && u@ == lower_of(trim(input.owner_username@)) && f@
                == trim(input.owner_full_name@),
        },
{
    let trimmed = trim_str(input.owner_username.as_str());
    let username = to_lower(trimmed.as_str());
    if utf8_byte_len(username.as_str()) < 3 || !all_match(username.as_str(), false) {
        return Err(
            validation(
                "owner username must be 3+ characters using letters, digits, '.', '_' or '-'",
            ),
        );
    }
    let full_name = trim_str(input.owner_full_name.as_str());
    let n = full_name.unicode_len();
    if n == 0 || n > 200 {
        return Err(validation("owner full name is required and must be 200 characters or fewer"));
    }
    Ok((username, full_name))
}

/// Setup runs once: with any user on record it is refused, so a crash
/// midway can never create a second owner.
pub fn check_setup_open(existing_users: i64) -> (r: Result<(), AppError>)
    ensures
        existing_users > 0 ==> (r matches Err(AppError::Conflict(m)) && m@
            == "first-run setup is already complete"@),
        existing_users <= 0 ==> r is Ok,
{
    if existing_users > 0 {
        return Err(conflict("first-run setup is already complete"));
    }
    Ok(())
}

// ---------------------------------------------------------------------------
// Settings written by the setup
// ---------------------------------------------------------------------------

/// The lower-case hexadecimal digit of `n` (0 to 15).
pub open spec fn hex_digit(n: int) -> char {
    "0123456789abcdef"@[n]
}

/// How one character is written inside a JSON string: a quote and a
/// backslash are escaped; backspace, form feed, line feed, carriage return
/// and tab take their short escapes; every other control character below
/// 0x20 is written as `\u00` and two lower-case hex digits; anything else is
/// written as it is.
pub open spec fn json_escape_char(c: char) -> Seq<char> {
    if c == '"' {
        seq!['\\', '"']
    } else if c == '\\' {
        seq!['\\', '\\']
    } else if c == '\x08' {
        seq!['\\', 'b']
    } else if c == '\x0c' {
        seq!['\\', 'f']
    } else if c == '\n' {
        seq!['\\', 'n']
    } else if c == '\r' {
        seq!['\\', 'r']
    } else if c == '\t' {
        seq!['\\', 't']
    } else if (c as u32) < 0x20 {
        seq!['\\', 'u', '0', '0', hex_digit(((c as u32) / 16) as int), hex_digit(((c as u32) % 16) as int)]
    } else {
        seq![c]
    }
}

pub open spec fn json_escaped(s: Seq<char>) -> Seq<char>
    decreases s.len(),
{
    if s.len() == 0 {
        Seq::empty()
    } else {
        json_escaped(s.drop_last()) + json_escape_char(s.last())
    }
}

/// The JSON text of a string value, as `serde_json::to_string` writes it:
/// the escaped characters between double quotes.
pub open spec fn json_string_text(value: Seq<char>) -> Seq<char> {
    seq!['"'] + json_escaped(value) + seq!['"']
}

fn push_escaped(out: &mut String, c: char, hex: &Vec<char>)
    requires
        hex@ == "0123456789abcdef"@,
    ensures
        final(out)@ == old(out)@ + json_escape_char(c),
{
    if c == '"' {
        push_char(out, '\\');
        push_char(out, '"');
    } else if c == '\\' {
        push_char(out, '\\');
        push_char(out, '\\');
    } else if c == '\x08' {
        push_char(out, '\\');
        push_char(out, 'b');
    } else if c == '\x0c' {
        push_char(out, '\\');
        push_char(out, 'f');
    } else if c == '\n' {
        push_char(out, '\\');
        push_char(out, 'n');
    } else if c == '\r' {
        push_char(out, '\\');
        push_char(out, 'r');
    } else if c == '\t' {
        push_char(out, '\\');
        push_char(out, 't');
    } else if (c as u32) < 0x20 {
        let code = c as u32;
        proof {
            reveal_strlit("0123456789abcdef");
        }
        push_char(out, '\\');
        push_char(out, 'u');
        push_char(out, '0');
        push_char(out, '0');
        push_char(out, hex[(code / 16) as usize]);
        push_char(out, hex[(code % 16) as usize]);
    } else {
        push_char(out, c);
    }
    proof {
        assert(final(out)@ =~= old(out)@ + json_escape_char(c));
    }
}

/// A string value written as JSON text.
pub(crate) fn json_string(value: &str) -> (r: String)
    ensures
        r@ == json_string_text(value@),
{
    let v = chars_of(value);
    let hex = chars_of("0123456789abcdef");
    let mut out = owned("\"");
    proof {
        reveal_strlit("\"");
    }
    let mut i: usize = 0;
    while i < v.len()
        invariant
            i <= v.len(),
            v@ == value@,
            hex@ == "0123456789abcdef"@,
            out@ == seq!['"'] + json_escaped(v@.take(i as int)),
        decreases v.len() - i,
    {
        proof {
            assert(v@.take(i + 1).drop_last() =~= v@.take(i as int));
        }
        push_escaped(&mut out, v[i], &hex);
        proof {
            assert(out@ =~= seq!['"'] + json_escaped(v@.take(i + 1)));
        }
        i += 1;
    }
    push_char(&mut out, '"');
    proof {
        assert(v@.take(v@.len() as int) =~= v@);
    }
    out
}

/// A setting: its key and its JSON value.
pub open spec fn setting(entry: (String, String), key: Seq<char>, value: Seq<char>) -> bool {
    entry.0@ == key && entry.1@ == value
}

/// The settings a completed setup writes, in order: the shop's name,
/// currency and timezone, the invoice prefix (`INV/` when none is given),
/// the stock policies, the completion flag, then the address, phone, email
/// and backup folder where given.
pub open spec fn setup_settings_as(r: Seq<(String, String)>, shop: ShopSetup) -> bool {
    let optional = seq![
        (shop.address@, "shop.address"@),
        (shop.phone@, "shop.phone"@),
        (shop.email@, "shop.email"@),
    ];
    &&& r.len() >= 7
    &&& setting(r[0], "shop.name"@, json_string_text(shop.shop_name@))
    &&& setting(r[1], "shop.currency"@, json_string_text(shop.currency@))
    &&& setting(r[2], "shop.timezone"@, json_string_text(shop.timezone@))
    &&& setting(
        r[3],
        "invoice.prefix"@,
        json_string_text(
            match shop.invoice_prefix {
                Some(p) => p@,
                None => "INV/"@,
            },
        ),
    )
    &&& setting(r[4], "inventory.issue_policy"@, json_string_text("on_confirmation"@))
    &&& setting(r[5], "inventory.negative_stock"@, json_string_text("block"@))
    &&& setting(r[6], first_run_key(), "true"@)
    &&& r.subrange(7, r.len() as int).map_values(|e: (String, String)| (e.0@, e.1@))
        == extra_settings(shop)
}

/// The optional settings, in order, each only where given.
pub open spec fn extra_settings(shop: ShopSetup) -> Seq<(Seq<char>, Seq<char>)> {
    let a = if shop.address@.len() > 0 {
        seq![("shop.address"@, json_string_text(shop.address@))]
    } else {
        Seq::empty()
    };
    let p = if shop.phone@.len() > 0 {
        seq![("shop.phone"@, json_string_text(shop.phone@))]
    } else {
        Seq::empty()
    };
    let e = if shop.email@.len() > 0 {
        seq![("shop.email"@, json_string_text(shop.email@))]
    } else {
        Seq::empty()
    };
    let b = match shop.backup_location {
        Some(dir) => seq![("backup.location"@, json_string_text(dir@))],
        None => Seq::empty(),
    };
    a + p + e + b
}

fn push_setting(out: &mut Vec<(String, String)>, key: &str, value: &str)
    ensures
        final(out)@ == old(out)@.push(final(out)@.last()),
        final(out)@.last().0@ == key@,
        final(out)@.last().1@ == json_string_text(value@),
{
    out.push((owned(key), json_string(value)));
}

/// The settings a completed setup writes.
pub fn setup_settings(shop: &ShopSetup) -> (r: Vec<(String, String)>)
    ensures
        setup_settings_as(r@, *shop),
{
    let mut out: Vec<(String, String)> = Vec::new();
    push_setting(&mut out, "shop.name", shop.shop_name.as_str());
    push_setting(&mut out, "shop.currency", shop.currency.as_str());
    push_setting(&mut out, "shop.timezone", shop.timezone.as_str());
    match &shop.invoice_prefix {
        Some(p) => push_setting(&mut out, "invoice.prefix", p.as_str()),
        None => push_setting(&mut out, "invoice.prefix", "INV/"),
    }
    push_setting(&mut out, "inventory.issue_policy", "on_confirmation");
    push_setting(&mut out, "inventory.negative_stock", "block");
    out.push((owned("system.first_run_complete"), owned("true")));
    let ghost head = out@;
    proof {
        reveal_strlit("system.first_run_complete");
    }
    if shop.address.unicode_len() > 0 {
        push_setting(&mut out, "shop.address", shop.address.as_str());
    }
    if shop.phone.unicode_len() > 0 {
        push_setting(&mut out, "shop.phone", shop.phone.as_str());
    }
    if shop.email.unicode_len() > 0 {
        push_setting(&mut out, "shop.email", shop.email.as_str());
    }
    match &shop.backup_location {
        Some(dir) => push_setting(&mut out, "backup.location", dir.as_str()),
        None => {},
    }
    proof {
        assert(out@.subrange(0, 7) == head);
        assert(out@.subrange(7, out@.len() as int).map_values(|e: (String, String)| (e.0@, e.1@))
            =~= extra_settings(*shop));
    }
    out
}

// ---------------------------------------------------------------------------
// The initial administrator
// ---------------------------------------------------------------------------

/// The initial administrator is seeded only while no account holds the owner
/// role (an inactive one counts too) and no account is called `admin`: an
/// existing `admin` is never overwritten, promoted or given a new password.
pub fn should_seed_administrator(owner_count: i64, admin_username_count: i64) -> (r: bool)
    ensures
        r == seeds_administrator(owner_count as int, admin_username_count as int),
{
    owner_count <= 0 && admin_username_count <= 0
}

pub open spec fn seeds_administrator(owner_count: int, admin_username_count: int) -> bool {
    owner_count <= 0 && admin_username_count <= 0
}

/// The initial administrator is seeded at most once: seeding adds the `admin`
/// account with the owner role, after which neither guard lets it be seeded
/// again; and whenever some account holds the owner role (seeded, or made by
/// the setup) or an `admin` account exists, nothing is seeded, so an existing
/// administrator and its password are never replaced.
pub proof fn law_administrator_seeded_once(owner_count: int, admin_username_count: int)
    requires
        owner_count >= 0,
        admin_username_count >= 0,
    ensures
        seeds_administrator(owner_count, admin_username_count) ==> !seeds_administrator(owner_count + 1,
            admin_username_count + 1),
        owner_count > 0 ==> !seeds_administrator(owner_count, admin_username_count),
        admin_username_count > 0 ==> !seeds_administrator(owner_count, admin_username_count),
{
}

/// The defaults a brand-new database receives with its initial
/// administrator, as key and JSON value; an established installation that
/// merely lost its administrator receives none.
pub fn initial_defaults(existing_users: i64) -> (r: Vec<(String, String)>)
    ensures
        existing_users != 0 ==> r.len() == 0,
        existing_users == 0 ==> r.len() == 7 && setting(r@[0], "shop.name"@,
            "\"Furniture Showroom\""@) && setting(r@[1], "shop.currency"@, "\"PKR\""@) && setting(
            r@[2],
            "shop.timezone"@,
            "\"Asia/Karachi\""@,
        ) && setting(r@[3], "invoice.prefix"@, "\"INV/\""@) && setting(
            r@[4],
            "inventory.issue_policy"@,
            "\"on_confirmation\""@,
        ) && setting(r@[5], "inventory.negative_stock"@, "\"block\""@) && setting(
            r@[6],
            first_run_key(),
            "true"@,
        ),
{
    let mut out: Vec<(String, String)> = Vec::new();
    if existing_users != 0 {
        return out;
    }
    out.push((owned("shop.name"), owned("\"Furniture Showroom\"")));
    out.push((owned("shop.currency"), owned("\"PKR\"")));
    out.push((owned("shop.timezone"), owned("\"Asia/Karachi\"")));
    out.push((owned("invoice.prefix"), owned("\"INV/\"")));
    out.push((owned("inventory.issue_policy"), owned("\"on_confirmation\"")));
    out.push((owned("inventory.negative_stock"), owned("\"block\"")));
    out.push((owned("system.first_run_complete"), owned("true")));
    proof {
        reveal_strlit("system.first_run_complete");
    }
    out
}

} // verus!
