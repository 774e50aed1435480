use crate::error::ClientError;
use vstd::prelude::*;

verus! {

/// The character of a decimal digit `d` (`0 <= d < 10`).
pub open spec fn digit_char(d: int) -> char {
    if d == 0 {
        '0'
    } else if d == 1 {
        '1'
    } else if d == 2 {
        '2'
    } else if d == 3 {
        '3'
    } else if d == 4 {
        '4'
    } else if d == 5 {
        '5'
    } else if d == 6 {
        '6'
    } else if d == 7 {
        '7'
    } else if d == 8 {
        '8'
    } else {
        '9'
    }
}

/// The decimal digits of a natural number, most significant first, without
/// leading zeros (zero itself is one digit).
pub open spec fn digits(n: nat) -> Seq<char>
    decreases n,
{
    if n < 10 {
        seq![digit_char(n as int)]
    } else {
        digits(n / 10).push(digit_char((n % 10) as int))
    }
}

/// The decimal text of an integer, with a leading `-` when it is negative.
pub open spec fn decimal(n: int) -> Seq<char> {
    if n < 0 {
        seq!['-'] + digits((-n) as nat)
    } else {
        digits(n as nat)
    }
}

fn digit_str(d: u64) -> (r: &'static str)
    requires
        d < 10,
    ensures
        r@ == seq![digit_char(d as int)],
{
    proof {
        reveal_strlit("0");
        reveal_strlit("1");
        reveal_strlit("2");
        reveal_strlit("3");
        reveal_strlit("4");
        reveal_strlit("5");
        reveal_strlit("6");
        reveal_strlit("7");
        reveal_strlit("8");
        reveal_strlit("9");
    }
    if d == 0 {
        "0"
    } else if d == 1 {
        "1"
    } else if d == 2 {
        "2"
    } else if d == 3 {
        "3"
    } else if d == 4 {
        "4"
    } else if d == 5 {
        "5"
    } else if d == 6 {
        "6"
    } else if d == 7 {
        "7"
    } else if d == 8 {
        "8"
    } else {
        "9"
    }
}

fn push_digits(out: &mut String, n: u64)
    ensures
        final(out)@ == old(out)@ + digits(n as nat),
    decreases n,
{
    if n >= 10 {
        push_digits(out, n / 10);
    }
    out.append(digit_str(n % 10));
    proof {
        if n >= 10 {
            assert(digits(n as nat) == digits((n / 10) as nat).push(digit_char((n % 10) as int)));
        }
    }
}

/// Appends the decimal text of `n` to `out`.
pub fn push_decimal(out: &mut String, n: i64)
    ensures
        final(out)@ == old(out)@ + decimal(n as int),
{
    if n < 0 {
        proof {
            reveal_strlit("-");
        }
        out.append("-");
        let magnitude: u64 = (-(n as i128)) as u64;
        push_digits(out, magnitude);
        assert(final(out)@ =~= old(out)@ + decimal(n as int));
    } else {
        push_digits(out, n as u64);
    }
}

/// The decimal text of `n`.
pub fn to_decimal(n: i64) -> (r: String)
    ensures
        r@ == decimal(n as int),
{
    let mut out = String::new();
    push_decimal(&mut out, n);
    assert(out@ =~= decimal(n as int));
    out
}

/// The query parameter that carries the API key.
pub open spec fn key_param(key: Seq<char>) -> Seq<char> {
    "&apikey="@ + key
}

/// The balance query: `account&action=balance&address=<a>&tag=latest` after
/// the base URL, then the key parameter.
pub open spec fn balance_query(base: Seq<char>, address: Seq<char>, key: Seq<char>) -> Seq<char> {
    base + "account&action=balance&address="@ + address + "&tag=latest"@ + key_param(key)
}

/// The total-supply query: `stats&action=ethsupply` after the base URL, then
/// the key parameter.
pub open spec fn supply_query(base: Seq<char>, key: Seq<char>) -> Seq<char> {
    base + "stats&action=ethsupply"@ + key_param(key)
}

/// The last-price query: `stats&action=ethprice` after the base URL, then the
/// key parameter.
pub open spec fn price_query(base: Seq<char>, key: Seq<char>) -> Seq<char> {
    base + "stats&action=ethprice"@ + key_param(key)
}

/// The transaction-list query:
/// `account&action=txlist&address=<a>&startblock=<s>&endblock=<e>&sort=asc`
/// after the base URL, then the key parameter.
pub open spec fn transactions_query(
    base: Seq<char>,
    address: Seq<char>,
    start_block: int,
    end_block: int,
    key: Seq<char>,
) -> Seq<char> {
    base + "account&action=txlist&address="@ + address + "&startblock="@ + decimal(start_block)
        + "&endblock="@ + decimal(end_block) + "&sort=asc"@ + key_param(key)
}

/// The query parameter `&apikey=<key>`, or a configuration error when no key
/// is available.
pub fn api_key_param(api_key: Option<&str>) -> (r: Result<String, ClientError>)
    ensures
        match api_key {
            None => r matches Err(ClientError::Config(_)),
            Some(k) => r matches Ok(s) && s@ == key_param(k@),
        },
{
    match api_key {
        None => Err(ClientError::Config(String::from_str("Failed to locate API key!"))),
        Some(k) => {
            let mut s = String::from_str("&apikey=");
            s.append(k);
            Ok(s)
        },
    }
}

/// The URL of a balance query against `base`.
pub fn balance_url(base: &str, address: &str, api_key: Option<&str>) -> (r: Result<
    String,
    ClientError,
>)
    ensures
        match api_key {
            None => r matches Err(ClientError::Config(_)),
            Some(k) => r matches Ok(s) && s@ == balance_query(base@, address@, k@),
        },
{
    let suffix = match api_key_param(api_key) {
        Ok(s) => s,
        Err(e) => return Err(e),
    };
    let mut s = String::from_str(base);
    s.append("account&action=balance&address=");
    s.append(address);
    s.append("&tag=latest");
    s.append(suffix.as_str());
    Ok(s)
}

/// The URL of a total-supply query against `base`.
pub fn total_supply_url(base: &str, api_key: Option<&str>) -> (r: Result<String, ClientError>)
    ensures
        match api_key {
            None => r matches Err(ClientError::Config(_)),
            Some(k) => r matches Ok(s) && s@ == supply_query(base@, k@),
        },
{
    let suffix = match api_key_param(api_key) {
        Ok(s) => s,
        Err(e) => return Err(e),
    };
    let mut s = String::from_str(base);
    s.append("stats&action=ethsupply");
    s.append(suffix.as_str());
    Ok(s)
}

/// The URL of a last-price query against `base`.
pub fn last_price_url(base: &str, api_key: Option<&str>) -> (r: Result<String, ClientError>)
    ensures
        match api_key {
            None => r matches Err(ClientError::Config(_)),
            Some(k) => r matches Ok(s) && s@ == price_query(base@, k@),
        },
{
    let suffix = match api_key_param(api_key) {
        Ok(s) => s,
        Err(e) => return Err(e),
    };
    let mut s = String::from_str(base);
    s.append("stats&action=ethprice");
    s.append(suffix.as_str());
    Ok(s)
}

/// The URL of a transaction-list query against `base`, for the blocks from
/// `start_block` to `end_block`, passed on as given.
pub fn transactions_url(
    base: &str,
    address: &str,
    start_block: i64,
    end_block: i64,
    api_key: Option<&str>,
) -> (r: Result<String, ClientError>)
    ensures
        match api_key {
            None => r matches Err(ClientError::Config(_)),
            Some(k) => r matches Ok(s) && s@ == transactions_query(
                base@,
                address@,
                start_block as int,
                end_block as int,
                k@,
            ),
        },
{
    let suffix = match api_key_param(api_key) {
        Ok(s) => s,
        Err(e) => return Err(e),
    };
    let mut s = String::from_str(base);
    s.append("account&action=txlist&address=");
    s.append(address);
    s.append("&startblock=");
    push_decimal(&mut s, start_block);
    s.append("&endblock=");
    push_decimal(&mut s, end_block);
    s.append("&sort=asc");
    s.append(suffix.as_str());
    Ok(s)
}

} // verus!
