use vstd::prelude::*;
use vstd::string::{StringExecFns, StringSliceAdditionalSpecFns};
use vstd::utf8::{decode_utf8, encode_utf8, valid_utf8};
use crate::error::ValkeyError;
use crate::valkey_string::ValkeyString;

verus! {

/// Context of the configuration callbacks: the host lock is held, but the
/// regular command operations are not available.
pub struct ConfigurationContext {
    _dummy: usize,
}

impl ConfigurationContext {
    pub(crate) fn new() -> ConfigurationContext {
        ConfigurationContext { _dummy: 0 }
    }
}

/// A module variable that backs a configuration entry.
pub trait ConfigurationValue<T> {
    fn get(&self, ctx: &ConfigurationContext) -> T;

    fn set(&self, ctx: &ConfigurationContext, val: T) -> Result<(), ValkeyError>;
}

/// An enumeration that backs an enum configuration entry.
pub trait EnumConfigurationValue: Sized {
    /// The names of the values and the number of each, in the same order.
    fn get_options(&self) -> (Vec<String>, Vec<i32>);

    /// The value with the given number.
    fn try_from_value(v: i32) -> Result<Self, ValkeyError>;
}

/// The index of the first argument equal to `name`.
pub open spec fn first_index_of(args: Seq<Seq<u8>>, name: Seq<u8>) -> Option<int>
    decreases args.len(),
{
    if args.len() == 0 {
        None
    } else if args[0] == name {
        Some(0)
    } else {
        match first_index_of(args.drop_first(), name) {
            Some(i) => Some(i + 1),
            None => None,
        }
    }
}

/// The argument that follows the first argument equal to `name`, as the
/// value of the configuration entry `name` in a module's load arguments.
pub open spec fn config_value_index(args: Seq<Seq<u8>>, name: Seq<u8>) -> Option<int> {
    match first_index_of(args, name) {
        Some(i) => if i + 1 < args.len() {
            Some(i + 1)
        } else {
            None
        },
        None => None,
    }
}

pub open spec fn arg_views(args: Seq<ValkeyString>) -> Seq<Seq<u8>> {
    args.map_values(|a: ValkeyString| a@)
}

proof fn lemma_first_index_found(args: Seq<Seq<u8>>, name: Seq<u8>, i: int)
    requires
        0 <= i < args.len(),
        args[i] == name,
        forall|j: int| 0 <= j < i ==> args[j] != name,
    ensures
        first_index_of(args, name) == Some(i),
    decreases i,
{
    if i > 0 {
        lemma_first_index_found(args.drop_first(), name, i - 1);
    }
}

proof fn lemma_first_index_absent(args: Seq<Seq<u8>>, name: Seq<u8>)
    requires
        forall|j: int| 0 <= j < args.len() ==> args[j] != name,
    ensures
        first_index_of(args, name) is None,
    decreases args.len(),
{
    if args.len() > 0 {
        lemma_first_index_absent(args.drop_first(), name);
    }
}

/// The argument that follows the first argument equal to `name`.
pub fn find_config_value<'a>(args: &'a Vec<ValkeyString>, name: &str) -> (r: Option<&'a ValkeyString>)
    ensures
        match config_value_index(arg_views(args@), name.spec_bytes()) {
            Some(i) => r == Some(&args@[i]),
            None => r is None,
        },
{
    let key = name.as_bytes();
    let ghost views = arg_views(args@);
    let mut i: usize = 0;
    while i < args.len()
        invariant
            0 <= i <= args@.len(),
            views == arg_views(args@),
            key@ == name.spec_bytes(),
            forall|j: int| 0 <= j < i ==> views[j] != key@,
        decreases args@.len() - i,
    {
        if args[i].eq_bytes(key) {
            proof {
                lemma_first_index_found(views, key@, i as int);
            }
            if i + 1 < args.len() {
                return Some(&args[i + 1]);
            } else {
                return None;
            }
        }
        i = i + 1;
    }
    proof {
        lemma_first_index_absent(views, key@);
    }
    None
}

pub open spec fn is_digit(c: u8) -> bool {
    48 <= c <= 57
}

/// The number written by a sequence of decimal digits.
pub open spec fn digits_value(s: Seq<u8>) -> int
    decreases s.len(),
{
    if s.len() == 0 {
        0
    } else {
        digits_value(s.drop_last()) * 10 + (s.last() - 48)
    }
}

pub open spec fn all_digits(s: Seq<u8>) -> bool {
    forall|i: int| 0 <= i < s.len() ==> is_digit(#[trigger] s[i])
}

/// Whether `s` starts with a sign (`-` or `+`).
pub open spec fn has_sign(s: Seq<u8>) -> bool {
    s.len() > 0 && (s[0] == 45u8 || s[0] == 43u8)
}

/// What follows the sign, if any.
pub open spec fn unsigned_part(s: Seq<u8>) -> Seq<u8> {
    if has_sign(s) {
        s.drop_first()
    } else {
        s
    }
}

/// The integer written in `s`: an optional `+` or `-`, then at least one
/// decimal digit and nothing else, of a value that fits in an `i64`.
pub open spec fn parse_i64_spec(s: Seq<u8>) -> Option<i64> {
    let body = unsigned_part(s);
    let v = if s.len() > 0 && s[0] == 45u8 {
        -digits_value(body)
    } else {
        digits_value(body)
    };
    if body.len() > 0 && all_digits(body) && i64::MIN <= v <= i64::MAX {
        Some(v as i64)
    } else {
        None
    }
}

proof fn lemma_digits_value_nonneg(s: Seq<u8>)
    requires
        forall|i: int| 0 <= i < s.len() ==> is_digit(#[trigger] s[i]),
    ensures
        digits_value(s) >= 0,
    decreases s.len(),
{
    if s.len() > 0 {
        lemma_digits_value_nonneg(s.drop_last());
    }
}

/// The value of all the digits is at least that of any prefix.
proof fn lemma_digits_value_prefix(s: Seq<u8>, k: int)
    requires
        0 <= k <= s.len(),
        forall|i: int| 0 <= i < s.len() ==> is_digit(#[trigger] s[i]),
    ensures
        digits_value(s) >= digits_value(s.take(k)),
    decreases s.len(),
{
    if k < s.len() {
        lemma_digits_value_nonneg(s.drop_last());
        assert(s.drop_last().take(k) =~= s.take(k));
        lemma_digits_value_prefix(s.drop_last(), k);
    } else {
        assert(s.take(k) =~= s);
    }
}

/// Parses a decimal integer as `str::parse::<i64>` does.
pub fn parse_i64(s: &[u8]) -> (r: Option<i64>)
    ensures
        r == parse_i64_spec(s@),
{
    let n = s.len();
    let neg = n > 0 && s[0] == 45u8;
    let signed = n > 0 && (s[0] == 45u8 || s[0] == 43u8);
    let start: usize = if signed { 1 } else { 0 };
    let ghost body = unsigned_part(s@);
    if start >= n {
        return None;
    }
    let limit: i128 = if neg { 9223372036854775808 } else { 9223372036854775807 };
    let mut acc: i128 = 0;
    let mut i: usize = start;
    while i < n
        invariant
            start <= i <= n,
            n == s@.len(),
            start == (if signed { 1int } else { 0int }),
            body == s@.subrange(start as int, n as int),
            body == unsigned_part(s@),
            signed == has_sign(s@),
            neg == (s@.len() > 0 && s@[0] == 45u8),
            forall|j: int| 0 <= j < i - start ==> is_digit(#[trigger] body[j]),
            acc == digits_value(body.take(i - start)),
            0 <= acc <= limit,
            limit == (if neg { 9223372036854775808i128 } else { 9223372036854775807i128 }),
        decreases n - i,
    {
        let c = s[i];
        assert(body[i - start] == s@[i as int]);
        if c < 48 || c > 57 {
            assert(!is_digit(body[i - start]));
            assert(!all_digits(body));
            return None;
        }
        let ghost k = i - start;
        proof {
            assert(body.take(k + 1).drop_last() =~= body.take(k));
            assert(body.take(k + 1).last() == c);
        }
        acc = acc * 10 + (c - 48) as i128;
        assert(acc == digits_value(body.take(k + 1)));
        if acc > limit {
            proof {
                if all_digits(body) {
                    lemma_digits_value_prefix(body, k + 1);
                }
            }
            return None;
        }
        i = i + 1;
    }
    proof {
        assert(body.take(n - start) =~= body);
    }
    if neg {
        Some((0 - acc) as i64)
    } else {
        Some(acc as i64)
    }
}

/// The value of an integer entry in the load arguments, or `default` when
/// the arguments do not set it.
pub fn get_i64_default_config_value(args: &Vec<ValkeyString>, name: &str, default: i64) -> (r:
    Result<i64, ValkeyError>)
    ensures
        match config_value_index(arg_views(args@), name.spec_bytes()) {
            None => r == Ok::<i64, ValkeyError>(default),
            Some(i) => match parse_i64_spec(args@[i]@) {
                Some(v) => r == Ok::<i64, ValkeyError>(v),
                None => r.is_err(),
            },
        },
{
    match find_config_value(args, name) {
        None => Ok(default),
        Some(arg) => match parse_i64(arg.as_slice()) {
            Some(v) => Ok(v),
            None => match arg.try_as_str() {
                Ok(_) => Err(ValkeyError::Str("invalid digit found in string")),
                Err(e) => Err(e),
            },
        },
    }
}

/// The value of a string entry in the load arguments, or `default` when the
/// arguments do not set it. An argument that is not UTF-8 is an error.
pub fn get_string_default_config_value<'a>(args: &'a Vec<ValkeyString>, name: &str, default: &'a str) -> (r:
    Result<&'a str, ValkeyError>)
    ensures
        match config_value_index(arg_views(args@), name.spec_bytes()) {
            None => r == Ok::<&str, ValkeyError>(default),
            Some(i) => (r.is_ok() <==> valid_utf8(args@[i]@)) && (r matches Ok(s) ==> s.spec_bytes()
                == args@[i]@),
        },
{
    match find_config_value(args, name) {
        None => Ok(default),
        Some(arg) => arg.try_as_str(),
    }
}

/// The value of a boolean entry in the load arguments: true exactly when the
/// argument is `yes`; `default` when the arguments do not set it.
pub fn get_bool_default_config_value(args: &Vec<ValkeyString>, name: &str, default: bool) -> (r:
    Result<bool, ValkeyError>)
    ensures
        match config_value_index(arg_views(args@), name.spec_bytes()) {
            None => r == Ok::<bool, ValkeyError>(default),
            Some(i) => (r.is_ok() <==> valid_utf8(args@[i]@)) && (r.is_ok() ==> r
                == Ok::<bool, ValkeyError>(args@[i]@ == seq![121u8, 101u8, 115u8])),
        },
{
    match find_config_value(args, name) {
        None => Ok(default),
        Some(arg) => {
            let _text = arg.try_as_str()?;
            Ok(arg.eq_bytes(&[121u8, 101u8, 115u8]))
        },
    }
}

/// The index of the first option name whose UTF-8 encoding is `arg`.
pub open spec fn option_index(names: Seq<String>, arg: Seq<u8>) -> Option<int> {
    first_index_of(names.map_values(|n: String| encode_utf8(n@)), arg)
}

/// The message for an enum value `shown` that is not one of the options.
pub open spec fn enum_missing_text(shown: Seq<char>) -> Seq<char> {
    "Enum '"@ + shown + "' not exists"@
}

fn enum_missing_message(shown: &str) -> (r: String)
    ensures
        r@ == enum_missing_text(shown@),
{
    let mut out = String::from_str("Enum '");
    out.append(shown);
    out.append("' not exists");
    out
}

/// The number of the option whose name is `arg`.
pub fn enum_config_number(names: &Vec<String>, vals: &Vec<i32>, arg: &ValkeyString) -> (r: Result<
    i32,
    ValkeyError,
>)
    ensures
        match option_index(names@, arg@) {
            Some(i) => if i < vals@.len() {
                r == Ok::<i32, ValkeyError>(vals@[i])
            } else {
                r == Err::<i32, ValkeyError>(ValkeyError::Str("Enum option without a value"))
            },
            None => r matches Err(ValkeyError::String(m)) && m@ == enum_missing_text(lossy_text(arg@)),
        },
{
    let ghost views = names@.map_values(|n: String| encode_utf8(n@));
    let mut i: usize = 0;
    while i < names.len()
        invariant
            0 <= i <= names@.len(),
            views == names@.map_values(|n: String| encode_utf8(n@)),
            forall|j: int| 0 <= j < i ==> views[j] != arg@,
        decreases names@.len() - i,
    {
        let name_bytes = names[i].as_str().as_bytes();
        if arg.eq_bytes(name_bytes) {
            proof {
                lemma_first_index_found(views, arg@, i as int);
            }
            if i < vals.len() {
                return Ok(vals[i]);
            } else {
                return Err(ValkeyError::Str("Enum option without a value"));
            }
        }
        i = i + 1;
    }
    proof {
        lemma_first_index_absent(views, arg@);
    }
    let shown = lossy_text_of(arg.as_slice());
    Err(ValkeyError::String(enum_missing_message(shown.as_str())))
}

/// The value of an enum entry in the load arguments, or `default` when the
/// arguments do not set it. The argument names one of the options of
/// `default` (`EnumConfigurationValue::get_options`); the value is the one
/// with that option's number (`enum_config_number`).
pub fn get_enum_default_config_value<G: EnumConfigurationValue>(
    args: &Vec<ValkeyString>,
    name: &str,
    default: G,
) -> (r: Result<G, ValkeyError>)
    ensures
        config_value_index(arg_views(args@), name.spec_bytes()) is None ==> r == Ok::<G, ValkeyError>(default),
{
    match find_config_value(args, name) {
        None => Ok(default),
        Some(arg) => {
            let (names, vals) = default.get_options();
            let v = enum_config_number(&names, &vals, arg)?;
            G::try_from_value(v)
        },
    }
}

/// `name.arg`: a configuration argument given under the module's name.
pub open spec fn prefixed_name(name: Seq<char>, arg: Seq<u8>) -> Seq<char> {
    name + seq!['.'] + lossy_text(arg)
}

fn prefixed(name: &str, arg: &ValkeyString) -> (r: String)
    ensures
        r@ == prefixed_name(name@, arg@),
{
    let mut out = String::from_str(name);
    out.append(".");
    proof {
        reveal_strlit(".");
    }
    let text = lossy_text_of(arg.as_slice());
    out.append(text.as_str());
    out
}

/// The arguments of the `CONFIG GET` that reads the module's entries named
/// in `args` (after the command name): `get`, then `name.entry` for each.
pub fn module_config_get_args(args: &Vec<ValkeyString>, name: &str) -> (r: Vec<String>)
    ensures
        r@.len() == if args@.len() == 0 { 1 } else { args@.len() },
        r@[0]@ == "get"@,
        forall|i: int| 1 <= i < args@.len() ==> (#[trigger] r@[i])@ == prefixed_name(name@, args@[i]@),
{
    let mut out: Vec<String> = Vec::new();
    out.push(String::from_str("get"));
    let mut i: usize = 1;
    while i < args.len()
        invariant
            1 <= i,
            i <= args@.len() || (args@.len() == 0 && i == 1),
            out@.len() == i,
            out@[0]@ == "get"@,
            forall|j: int| 1 <= j < i ==> (#[trigger] out@[j])@ == prefixed_name(name@, args@[j]@),
        decreases args@.len() - i,
    {
        out.push(prefixed(name, &args[i]));
        i = i + 1;
    }
    out
}

/// The arguments of the `CONFIG SET` that changes the module's entries:
/// `set`, then the pairs of `args` (after the command name), each entry
/// name given as `name.entry` and each value as it is.
pub fn module_config_set_args(args: &Vec<ValkeyString>, name: &str) -> (r: Vec<String>)
    ensures
        r@.len() == if args@.len() == 0 { 1 } else { args@.len() },
        r@[0]@ == "set"@,
        forall|i: int|
            1 <= i < args@.len() ==> (#[trigger] r@[i])@ == if (i - 1) % 2 == 0 {
                prefixed_name(name@, args@[i]@)
            } else {
                lossy_text(args@[i]@)
            },
{
    let mut out: Vec<String> = Vec::new();
    out.push(String::from_str("set"));
    let mut i: usize = 1;
    while i < args.len()
        invariant
            1 <= i,
            i <= args@.len() || (args@.len() == 0 && i == 1),
            out@.len() == i,
            out@[0]@ == "set"@,
            forall|j: int|
                1 <= j < i ==> (#[trigger] out@[j])@ == if (j - 1) % 2 == 0 {
                    prefixed_name(name@, args@[j]@)
                } else {
                    lossy_text(args@[j]@)
                },
        decreases args@.len() - i,
    {
        if (i - 1) % 2 == 0 {
            out.push(prefixed(name, &args[i]));
        } else {
            out.push(lossy_text_of(args[i].as_slice()));
        }
        i = i + 1;
    }
    out
}

/// What `String::from_utf8_lossy` makes of the bytes.
pub uninterp spec fn lossy_text(b: Seq<u8>) -> Seq<char>;

/// Relies on String::from_utf8_lossy: the bytes as text, each invalid
/// sequence replaced; valid UTF-8 is decoded as it is.
#[verifier::external_body]
fn lossy_text_of(b: &[u8]) -> (r: String)
    ensures
        r@ == lossy_text(b@),
        valid_utf8(b@) ==> r@ == decode_utf8(b@),
{
    String::from_utf8_lossy(b).into_owned()
}

} // verus!
