//! The stdout protocol of the engine (`RUN_ID:` and `PROGRESS:` lines) and run ids.
use vstd::prelude::*;
use crate::clock::{fields_at, utc_now, DateTimeFields};
use crate::error::EngineError;
use crate::text::{append_decimal, append_padded, decimal, fixed_digits, lemma_decimal_len_bound,
    lemma_fixed_digits_len, lemma_fixed_digits_less, lemma_padded_is_fixed, lemma_text_less_extend,
    lemma_text_less_prefix, lemma_zero_padded_len, pow10, push_char, text_less, zero_padded};

verus! {

/// The progress line for `percent` and `label`: `PROGRESS:<percent>:<label>`.
pub open spec fn progress_text(percent: nat, label: Seq<char>) -> Seq<char> {
    "PROGRESS:"@ + decimal(percent) + ":"@ + label
}

/// The line that announces a run id: `RUN_ID:<id>`.
pub open spec fn run_id_announcement(run_id: Seq<char>) -> Seq<char> {
    "RUN_ID:"@ + run_id
}

/// A progress line in the NemoClaw protocol format.
pub fn progress_line(percent: u8, label: &str) -> (line: String)
    ensures
        line@ == progress_text(percent as nat, label@),
{
    let mut line = String::new();
    line.append("PROGRESS:");
    append_decimal(&mut line, percent as u64);
    line.append(":");
    line.append(label);
    line
}

/// The run id line in the NemoClaw protocol format.
pub fn run_id_line(run_id: &str) -> (line: String)
    ensures
        line@ == run_id_announcement(run_id@),
{
    let mut line = String::new();
    line.append("RUN_ID:");
    line.append(run_id);
    line
}

/// A year as `chrono` prints `%Y`: four digits, zero-padded, for 0 to 9999; a
/// `+` before the digits above; a `-` before at least four digits below.
pub open spec fn year_text(y: int) -> Seq<char> {
    if 0 <= y <= 9999 {
        zero_padded(decimal(y as nat), 4)
    } else if y > 9999 {
        seq!['+'] + decimal(y as nat)
    } else {
        seq!['-'] + zero_padded(decimal((-y) as nat), 4)
    }
}

/// A field printed with two digits at least.
pub open spec fn two_digits(n: nat) -> Seq<char> {
    zero_padded(decimal(n), 2)
}

/// The time as `%Y%m%d-%H%M%S` prints it.
pub open spec fn stamp_text(f: DateTimeFields) -> Seq<char> {
    year_text(f.year as int) + two_digits(f.month as nat) + two_digits(f.day as nat) + seq!['-']
        + two_digits(f.hour as nat) + two_digits(f.minute as nat) + two_digits(f.second as nat)
}

/// A run id: `nc-YYYYMMDD-HHMMSS-` and eight hex characters.
pub open spec fn run_id_text(f: DateTimeFields, hex: Seq<char>) -> Seq<char> {
    "nc-"@ + stamp_text(f) + seq!['-'] + hex
}

/// A lower-case hexadecimal digit.
pub open spec fn is_lower_hex(c: char) -> bool {
    ('0' <= c && c <= '9') || ('a' <= c && c <= 'f')
}

/// The shape of a UUID printed by `uuid`: 36 characters, `-` at positions 8,
/// 13, 18 and 23, lower-case hexadecimal digits everywhere else.
pub open spec fn uuid_shape(s: Seq<char>) -> bool {
    &&& s.len() == 36
    &&& forall|i: int|
        0 <= i < 36 ==> if i == 8 || i == 13 || i == 18 || i == 23 {
            s[i] == '-'
        } else {
            is_lower_hex(#[trigger] s[i])
        }
}

/// Sixteen random bytes from the operating system, or none when it gives none.
///
/// Trusted: calls `getrandom::fill`, which reports any failure as an error;
/// nothing is stated of the bytes.
#[verifier::external_body]
fn random_bytes() -> (r: Option<[u8; 16]>)
{
    let mut bytes = [0u8; 16];
    match getrandom::fill(&mut bytes) {
        Ok(()) => Some(bytes),
        Err(_) => None,
    }
}

/// The text of the version 4 UUID made of `bytes`.
pub uninterp spec fn uuid_v4_text(bytes: Seq<u8>) -> Seq<char>;

/// The version 4 UUID made of random `bytes`, in its hyphenated text form.
///
/// Trusted: calls `uuid::Builder::from_random_bytes`, which sets the version and
/// variant bits, and prints the UUID with `to_string`, whose `Display` writes the
/// hyphenated lower-case form. Stated: the result depends on the bytes alone
/// (named `uuid_v4_text`), and its shape.
#[verifier::external_body]
fn uuid_v4_from(bytes: [u8; 16]) -> (s: String)
    ensures
        s@ == uuid_v4_text(bytes@),
        uuid_shape(s@),
{
    uuid::Builder::from_random_bytes(bytes).into_uuid().to_string()
}

/// Appends a year as `%Y` prints it.
fn append_year(out: &mut String, y: i32)
    ensures
        final(out)@ == old(out)@ + year_text(y as int),
{
    if 0 <= y && y <= 9999 {
        append_padded(out, y as u64, 4);
    } else if y > 9999 {
        push_char(out, '+');
        append_decimal(out, y as u64);
        assert(out@ =~= old(out)@ + year_text(y as int));
    } else {
        push_char(out, '-');
        let m: u64 = (-(y as i64)) as u64;
        append_padded(out, m, 4);
        assert(out@ =~= old(out)@ + year_text(y as int));
    }
}

/// The run id for the time `fields` and the random text `uuid`, of which the
/// first eight characters are used.
pub fn run_id_from(fields: &DateTimeFields, uuid: &str) -> (id: String)
    requires
        uuid@.len() >= 8,
    ensures
        id@ == run_id_text(*fields, uuid@.take(8)),
{
    let mut id = String::new();
    id.append("nc-");
    append_year(&mut id, fields.year);
    append_padded(&mut id, fields.month as u64, 2);
    append_padded(&mut id, fields.day as u64, 2);
    push_char(&mut id, '-');
    append_padded(&mut id, fields.hour as u64, 2);
    append_padded(&mut id, fields.minute as u64, 2);
    append_padded(&mut id, fields.second as u64, 2);
    push_char(&mut id, '-');
    let chars = crate::text::chars_of(uuid);
    let mut i: usize = 0;
    let ghost prefix = id@;
    while i < 8
        invariant
            chars@ == uuid@,
            uuid@.len() >= 8,
            i <= 8,
            id@ == prefix + uuid@.take(i as int),
        decreases 8 - i,
    {
        push_char(&mut id, chars[i]);
        assert(uuid@.take(i + 1) =~= uuid@.take(i as int).push(uuid@[i as int]));
        i = i + 1;
    }
    assert(id@ =~= run_id_text(*fields, uuid@.take(8)));
    id
}

/// A new run id: `nc-YYYYMMDD-HHMMSS-<8 hex chars>` from the current UTC time
/// and a random version 4 UUID. It fails when the clock cannot be read as a UTC
/// time, or when the operating system gives no random bytes.
pub fn generate_run_id() -> (r: Result<String, EngineError>)
    ensures
        r matches Ok(id) ==> exists|f: DateTimeFields, hex: Seq<char>|
            f.in_range() && hex.len() == 8 && (forall|i: int|
                0 <= i < 8 ==> is_lower_hex(#[trigger] hex[i])) && id@ == run_id_text(f, hex),
        r matches Ok(id) ==> exists|secs: int, f: DateTimeFields, b: Seq<u8>|
            0 <= secs && f.in_range() && fields_at(secs, f) && b.len() == 16 && id@ == run_id_text(
                f,
                uuid_v4_text(b).take(8),
            ),
        r matches Err(e) ==> e is ClockUnavailable || e is RandomUnavailable,
{
    let now = match utc_now() {
        Some(n) => n,
        None => return Err(EngineError::ClockUnavailable),
    };
    let bytes = match random_bytes() {
        Some(b) => b,
        None => return Err(EngineError::RandomUnavailable),
    };
    let uuid = uuid_v4_from(bytes);
    let id = run_id_from(&now.fields, uuid.as_str());
    proof {
        let hex = uuid@.take(8);
        assert forall|i: int| 0 <= i < 8 implies is_lower_hex(#[trigger] hex[i]) by {
            assert(hex[i] == uuid@[i]);
        }
        assert(bytes@.len() == 16);
        assert(0 <= now.timestamp.secs as int && fields_at(now.timestamp.secs as int, now.fields)
            && id@ == run_id_text(now.fields, uuid_v4_text(bytes@).take(8)));
    }
    Ok(id)
}

/// The powers of ten that the run id fields need.
proof fn lemma_small_powers()
    ensures
        pow10(2) == 100,
        pow10(4) == 10000,
{
    assert(pow10(0) == 1);
    assert(pow10(1) == 10);
    assert(pow10(2) == 100);
    assert(pow10(3) == 1000);
    assert(pow10(4) == 10000);
}

/// Law: a run id made in the years 0 to 9999 is 27 characters long, starts with
/// `nc-`, has `-` after the date and after the time, and ends with the hex part.
pub proof fn lemma_run_id_shape(f: DateTimeFields, hex: Seq<char>)
    requires
        f.in_range(),
        0 <= f.year <= 9999,
        hex.len() == 8,
    ensures
        run_id_text(f, hex).len() == 27,
        run_id_text(f, hex).take(3) == "nc-"@,
        run_id_text(f, hex)[11] == '-',
        run_id_text(f, hex)[18] == '-',
        run_id_text(f, hex).skip(19) == hex,
{
    reveal_strlit("nc-");
    lemma_small_powers();
    lemma_decimal_len_bound(f.year as nat, 4);
    lemma_zero_padded_len(decimal(f.year as nat), 4);
    lemma_decimal_len_bound(f.month as nat, 2);
    lemma_zero_padded_len(decimal(f.month as nat), 2);
    lemma_decimal_len_bound(f.day as nat, 2);
    lemma_zero_padded_len(decimal(f.day as nat), 2);
    lemma_decimal_len_bound(f.hour as nat, 2);
    lemma_zero_padded_len(decimal(f.hour as nat), 2);
    lemma_decimal_len_bound(f.minute as nat, 2);
    lemma_zero_padded_len(decimal(f.minute as nat), 2);
    lemma_decimal_len_bound(f.second as nat, 2);
    lemma_zero_padded_len(decimal(f.second as nat), 2);
    let t = run_id_text(f, hex);
    assert(t.take(3) =~= "nc-"@);
    assert(t.skip(19) =~= hex);
}

/// `a` is an earlier second than `b`: the fields compared from the year down
/// to the second.
pub open spec fn fields_before(a: DateTimeFields, b: DateTimeFields) -> bool {
    a.year < b.year || (a.year == b.year && (a.month < b.month || (a.month == b.month && (a.day
        < b.day || (a.day == b.day && (a.hour < b.hour || (a.hour == b.hour && (a.minute < b.minute
        || (a.minute == b.minute && a.second < b.second)))))))))
}

/// A run id without its `nc-` prefix, as fixed-width digit groups.
pub open spec fn id_key(f: DateTimeFields, hex: Seq<char>) -> Seq<char> {
    fixed_digits(f.year as nat, 4) + (fixed_digits(f.month as nat, 2) + (fixed_digits(
        f.day as nat,
        2,
    ) + (seq!['-'] + (fixed_digits(f.hour as nat, 2) + (fixed_digits(f.minute as nat, 2) + (
    fixed_digits(f.second as nat, 2) + (seq!['-'] + hex)))))))
}

/// Regrouping the parts of a run id.
proof fn lemma_regroup(
    y: Seq<char>,
    mo: Seq<char>,
    d: Seq<char>,
    h: Seq<char>,
    mi: Seq<char>,
    sec: Seq<char>,
    hex: Seq<char>,
)
    ensures
        "nc-"@ + (y + mo + d + seq!['-'] + h + mi + sec) + seq!['-'] + hex == "nc-"@ + (y + (mo + (d
            + (seq!['-'] + (h + (mi + (sec + (seq!['-'] + hex)))))))),
{
    assert("nc-"@ + (y + mo + d + seq!['-'] + h + mi + sec) + seq!['-'] + hex =~= "nc-"@ + (y + (mo
        + (d + (seq!['-'] + (h + (mi + (sec + (seq!['-'] + hex)))))))));
}

/// In the years 0 to 9999 a run id is `nc-` and its fixed-width key.
pub proof fn lemma_run_id_key(f: DateTimeFields, hex: Seq<char>)
    requires
        f.in_range(),
        0 <= f.year <= 9999,
    ensures
        run_id_text(f, hex) == "nc-"@ + id_key(f, hex),
{
    lemma_small_powers();
    lemma_padded_is_fixed(f.year as nat, 4);
    lemma_padded_is_fixed(f.month as nat, 2);
    lemma_padded_is_fixed(f.day as nat, 2);
    lemma_padded_is_fixed(f.hour as nat, 2);
    lemma_padded_is_fixed(f.minute as nat, 2);
    lemma_padded_is_fixed(f.second as nat, 2);
    assert(year_text(f.year as int) == fixed_digits(f.year as nat, 4));
    assert(two_digits(f.month as nat) == fixed_digits(f.month as nat, 2));
    assert(two_digits(f.day as nat) == fixed_digits(f.day as nat, 2));
    assert(two_digits(f.hour as nat) == fixed_digits(f.hour as nat, 2));
    assert(two_digits(f.minute as nat) == fixed_digits(f.minute as nat, 2));
    assert(two_digits(f.second as nat) == fixed_digits(f.second as nat, 2));
    lemma_regroup(
        fixed_digits(f.year as nat, 4),
        fixed_digits(f.month as nat, 2),
        fixed_digits(f.day as nat, 2),
        fixed_digits(f.hour as nat, 2),
        fixed_digits(f.minute as nat, 2),
        fixed_digits(f.second as nat, 2),
        hex,
    );
}

/// One digit group decides, or it is equal and the rest decides.
proof fn lemma_group_step(n1: nat, n2: nat, k: nat, r1: Seq<char>, r2: Seq<char>)
    requires
        n1 <= n2 < pow10(k),
        n1 == n2 ==> text_less(r1, r2),
    ensures
        text_less(fixed_digits(n1, k) + r1, fixed_digits(n2, k) + r2),
{
    lemma_fixed_digits_len(n1, k);
    lemma_fixed_digits_len(n2, k);
    if n1 < n2 {
        lemma_fixed_digits_less(n1, n2, k);
        lemma_text_less_extend(fixed_digits(n1, k), fixed_digits(n2, k), r1, r2);
    } else {
        lemma_text_less_prefix(fixed_digits(n1, k), r1, r2);
    }
}

/// Law: run ids order by their creation second. In the years 0 to 9999, a run id
/// made in an earlier second sorts before one made in a later second, whatever
/// their random parts; so the newest run's directory name is the greatest.
pub proof fn lemma_run_ids_order_by_time(
    f1: DateTimeFields,
    hex1: Seq<char>,
    f2: DateTimeFields,
    hex2: Seq<char>,
)
    requires
        f1.in_range(),
        f2.in_range(),
        0 <= f1.year <= 9999,
        0 <= f2.year <= 9999,
        fields_before(f1, f2),
    ensures
        text_less(run_id_text(f1, hex1), run_id_text(f2, hex2)),
{
    lemma_small_powers();
    lemma_run_id_key(f1, hex1);
    lemma_run_id_key(f2, hex2);
    let dash1 = seq!['-'] + hex1;
    let dash2 = seq!['-'] + hex2;
    let s1 = fixed_digits(f1.second as nat, 2) + dash1;
    let s2 = fixed_digits(f2.second as nat, 2) + dash2;
    let mi1 = fixed_digits(f1.minute as nat, 2) + s1;
    let mi2 = fixed_digits(f2.minute as nat, 2) + s2;
    let h1 = fixed_digits(f1.hour as nat, 2) + mi1;
    let h2 = fixed_digits(f2.hour as nat, 2) + mi2;
    let t1 = seq!['-'] + h1;
    let t2 = seq!['-'] + h2;
    let d1 = fixed_digits(f1.day as nat, 2) + t1;
    let d2 = fixed_digits(f2.day as nat, 2) + t2;
    let m1 = fixed_digits(f1.month as nat, 2) + d1;
    let m2 = fixed_digits(f2.month as nat, 2) + d2;
    if f1.year == f2.year && f1.month == f2.month && f1.day == f2.day && f1.hour == f2.hour
        && f1.minute == f2.minute {
        lemma_group_step(f1.second as nat, f2.second as nat, 2, dash1, dash2);
    }
    if f1.year == f2.year && f1.month == f2.month && f1.day == f2.day && f1.hour == f2.hour {
        lemma_group_step(f1.minute as nat, f2.minute as nat, 2, s1, s2);
    }
    if f1.year == f2.year && f1.month == f2.month && f1.day == f2.day {
        lemma_group_step(f1.hour as nat, f2.hour as nat, 2, mi1, mi2);
        lemma_text_less_prefix(seq!['-'], h1, h2);
    }
    if f1.year == f2.year && f1.month == f2.month {
        lemma_group_step(f1.day as nat, f2.day as nat, 2, t1, t2);
    }
    if f1.year == f2.year {
        lemma_group_step(f1.month as nat, f2.month as nat, 2, d1, d2);
    }
    lemma_group_step(f1.year as nat, f2.year as nat, 4, m1, m2);
    lemma_text_less_prefix("nc-"@, id_key(f1, hex1), id_key(f2, hex2));
}

} // verus!
