//! The balance files of a snapshot: how they are named and what they hold.
//!
//! A balance file is named `<date>_<n>.DAT`, where `<date>` is the day as
//! `DDMMYYYY` and `<n>` is one more than the number of balance files of that
//! day that the folder holds already. It has one line per client, in
//! ascending order of the client ids: the id, padded with a zero to two
//! digits, a space, the balance with two digits behind the point, a newline.

use crate::amount::{decimal_format_two_places, Amount};
use crate::constants::{CLIENT_BALANCE_FOLDER, PREFIX_FILE};
use crate::digits::{decimal_digits, decimal_text, digit_char};
use vstd::prelude::*;
use vstd::string::*;

verus! {

/// A client id as a balance file shows it: at least two digits wide, filled
/// with a zero, a minus sign before a negative id.
pub open spec fn client_id_text(client_id: int) -> Seq<char> {
    if client_id < 0 {
        seq!['-'] + decimal_digits((-client_id) as nat)
    } else if client_id < 10 {
        seq!['0'] + decimal_digits(client_id as nat)
    } else {
        decimal_digits(client_id as nat)
    }
}

/// The line of a balance file for one client.
pub open spec fn balance_line(client_id: i32, balance: Amount) -> Seq<char> {
    client_id_text(client_id as int) + seq![' '] + balance.two_places() + seq!['\n']
}

/// `name` is the name of a balance file of the day `date`.
pub open spec fn is_balance_file(name: Seq<char>, date: Seq<char>) -> bool {
    (date + seq!['_']).is_prefix_of(name) && PREFIX_FILE@.is_suffix_of(name)
}

/// How many of `names` are balance files of the day `date`.
pub open spec fn count_balance_files(names: Seq<String>, date: Seq<char>) -> nat
    decreases names.len(),
{
    if names.len() == 0 {
        0
    } else {
        count_balance_files(names.drop_last(), date) + (if is_balance_file(names.last()@, date) {
            1nat
        } else {
            0nat
        })
    }
}

/// The name of the `n`-th balance file of the day `date`.
pub open spec fn balance_file_name(date: Seq<char>, n: nat) -> Seq<char> {
    date + seq!['_'] + decimal_digits(n) + PREFIX_FILE@
}

/// The path of the `n`-th balance file of the day `date`.
pub open spec fn balance_file_path(date: Seq<char>, n: nat) -> Seq<char> {
    CLIENT_BALANCE_FOLDER@ + seq!['/'] + balance_file_name(date, n)
}

/// The two decimal digits of a number below 100.
pub open spec fn two_digits(n: int) -> Seq<char> {
    seq![digit_char(n / 10), digit_char(n % 10)]
}

/// A year as a date stamp shows it: four digits, filled up with zeros; a
/// year before 0 or after 9999 has its sign in front, and more than four
/// digits where it needs them.
pub open spec fn year_text(year: int) -> Seq<char> {
    let magnitude = if year < 0 {
        -year
    } else {
        year
    };
    let digits = if magnitude <= 9999 {
        two_digits(magnitude / 100) + two_digits(magnitude % 100)
    } else {
        decimal_digits(magnitude as nat)
    };
    if year < 0 {
        seq!['-'] + digits
    } else if year > 9999 {
        seq!['+'] + digits
    } else {
        digits
    }
}

/// The stamp of a day, `DDMMYYYY`.
pub open spec fn date_stamp(day: int, month: int, year: int) -> Seq<char> {
    two_digits(day) + two_digits(month) + year_text(year)
}

/// `stamp` is the stamp of some day of the calendar.
pub open spec fn is_date_stamp(stamp: Seq<char>) -> bool {
    exists|day: int, month: int, year: int|
        1 <= day <= 31 && 1 <= month <= 12 && -262144 <= year <= 262143 && stamp
            == #[trigger] date_stamp(day, month, year)
}

/// Calls `str::starts_with` with a string as the pattern.
///
/// Trusted: the result says whether `prefix` is a prefix of `s`.
#[verifier::external_body]
fn str_starts_with(s: &str, prefix: &str) -> (r: bool)
    ensures
        r == prefix@.is_prefix_of(s@),
{
    s.starts_with(prefix)
}

/// Calls `str::ends_with` with a string as the pattern.
///
/// Trusted: the result says whether `suffix` is a suffix of `s`.
#[verifier::external_body]
fn str_ends_with(s: &str, suffix: &str) -> (r: bool)
    ensures
        r == suffix@.is_suffix_of(s@),
{
    s.ends_with(suffix)
}

/// Calls `chrono::Local::now` and formats the day with `%d%m%Y`.
///
/// Trusted: the text is the stamp of a day of the calendar. `%d` writes the
/// day and `%m` the month with two digits each; `%Y` writes the year with
/// four digits, and with a sign and as many digits as it has where it lies
/// outside 0 to 9999. Which day it is depends on the clock and the time zone
/// of the machine: nothing is claimed of that.
#[verifier::external_body]
pub(crate) fn today_stamp() -> (r: String)
    ensures
        is_date_stamp(r@),
{
    chrono::Local::now().format("%d%m%Y").to_string()
}

/// A client id as a balance file shows it.
pub fn format_client_id(client_id: i32) -> (r: String)
    ensures
        r@ == client_id_text(client_id as int),
{
    proof {
        reveal_strlit("-");
        reveal_strlit("0");
    }
    if client_id < 0 {
        let magnitude: u64 = (-(client_id as i64)) as u64;
        let r = String::from_str("-").concat(decimal_text(magnitude).as_str());
        assert(r@ =~= client_id_text(client_id as int));
        r
    } else if client_id < 10 {
        let r = String::from_str("0").concat(decimal_text(client_id as u64).as_str());
        assert(r@ =~= client_id_text(client_id as int));
        r
    } else {
        decimal_text(client_id as u64)
    }
}

/// The line of a balance file for one client.
pub fn format_balance_line(client_id: i32, balance: Amount) -> (r: String)
    requires
        balance.wf(),
    ensures
        r@ == balance_line(client_id, balance),
{
    proof {
        reveal_strlit(" ");
        reveal_strlit("\n");
    }
    let mut line = format_client_id(client_id);
    line.append(" ");
    line.append(decimal_format_two_places(balance).as_str());
    line.append("\n");
    assert(line@ =~= balance_line(client_id, balance));
    line
}

/// The lines of a balance file for the given ids and balances, in their order.
pub fn format_balance_lines(entries: &Vec<(i32, Amount)>) -> (r: Vec<String>)
    requires
        forall|k: int| 0 <= k < entries@.len() ==> (#[trigger] entries@[k]).1.wf(),
    ensures
        r@.len() == entries@.len(),
        forall|k: int|
            0 <= k < r@.len() ==> (#[trigger] r@[k])@ == balance_line(entries@[k].0, entries@[k].1),
{
    let mut lines: Vec<String> = Vec::new();
    let mut i: usize = 0;
    while i < entries.len()
        invariant
            i <= entries@.len(),
            lines@.len() == i,
            forall|k: int| 0 <= k < entries@.len() ==> (#[trigger] entries@[k]).1.wf(),
            forall|k: int|
                0 <= k < i ==> (#[trigger] lines@[k])@ == balance_line(
                    entries@[k].0,
                    entries@[k].1,
                ),
        decreases entries@.len() - i,
    {
        lines.push(format_balance_line(entries[i].0, entries[i].1));
        i += 1;
    }
    lines
}

/// Whether `name` is the name of a balance file of the day `date`.
pub fn is_balance_file_name(name: &str, date: &str) -> (r: bool)
    ensures
        r == is_balance_file(name@, date@),
{
    proof {
        reveal_strlit("_");
    }
    let prefix_file_name = String::from_str(date).concat("_");
    assert(prefix_file_name@ =~= date@ + seq!['_']);
    str_starts_with(name, prefix_file_name.as_str()) && str_ends_with(name, PREFIX_FILE)
}

/// The number that the next balance file of the day `date` gets, where
/// `file_names` are the names in the folder: one more than the number of
/// balance files of that day among them, whatever their numbers are.
pub fn next_balance_file_number(date: &str, file_names: &Vec<String>) -> (r: u64)
    requires
        file_names@.len() < usize::MAX,
    ensures
        r == count_balance_files(file_names@, date@) + 1,
{
    let mut file_counter: u64 = 1;
    let mut i: usize = 0;
    while i < file_names.len()
        invariant
            i <= file_names@.len(),
            file_names@.len() < usize::MAX,
            file_counter == count_balance_files(file_names@.take(i as int), date@) + 1,
            file_counter <= i + 1,
        decreases file_names@.len() - i,
    {
        proof {
            let upto = file_names@.take(i as int + 1);
            assert(upto.drop_last() =~= file_names@.take(i as int));
            assert(upto.last() == file_names@[i as int]);
        }
        if is_balance_file_name(file_names[i].as_str(), date) {
            file_counter += 1;
        }
        i += 1;
    }
    assert(file_names@.take(file_names@.len() as int) =~= file_names@);
    file_counter
}

/// The path of the next balance file of the day `date`, where `file_names`
/// are the names in the folder.
pub fn generate_next_balance_file_name(date: &str, file_names: &Vec<String>) -> (r: String)
    requires
        file_names@.len() < usize::MAX,
    ensures
        r@ == balance_file_path(date@, count_balance_files(file_names@, date@) + 1),
{
    proof {
        reveal_strlit("/");
        reveal_strlit("_");
    }
    let file_counter = next_balance_file_number(date, file_names);
    let mut path = String::from_str(CLIENT_BALANCE_FOLDER);
    path.append("/");
    path.append(date);
    path.append("_");
    path.append(decimal_text(file_counter).as_str());
    path.append(PREFIX_FILE);
    assert(path@ =~= balance_file_path(date@, count_balance_files(file_names@, date@) + 1));
    path
}

} // verus!
