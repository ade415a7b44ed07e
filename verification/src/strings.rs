use vstd::prelude::*;

verus! {

/// The parts joined with `sep` between consecutive parts.
pub open spec fn join_spec(parts: Seq<Seq<char>>, sep: Seq<char>) -> Seq<char>
    decreases parts.len(),
{
    if parts.len() == 0 {
        Seq::<char>::empty()
    } else if parts.len() == 1 {
        parts[0]
    } else {
        parts[0] + sep + join_spec(parts.drop_first(), sep)
    }
}

/// Appending one more part appends one separator and the part.
pub proof fn lemma_join_push(parts: Seq<Seq<char>>, sep: Seq<char>, x: Seq<char>)
    ensures
        join_spec(parts.push(x), sep) == if parts.len() == 0 {
            x
        } else {
            join_spec(parts, sep) + sep + x
        },
    decreases parts.len(),
{
    if parts.len() == 0 {
        assert(parts.push(x) =~= seq![x]);
        assert(join_spec(seq![x], sep) == x);
    } else {
        lemma_join_push(parts.drop_first(), sep, x);
        assert(parts.push(x).drop_first() =~= parts.drop_first().push(x));
        assert(parts.push(x)[0] == parts[0]);
        if parts.len() == 1 {
            assert(parts.drop_first().len() == 0);
            assert(join_spec(parts, sep) == parts[0]);
        } else {
            assert((parts[0] + sep + (join_spec(parts.drop_first(), sep) + sep + x)) =~= (parts[0]
                + sep + join_spec(parts.drop_first(), sep) + sep + x));
        }
    }
}

/// Join rendered parts with a separator.
pub fn join_with(parts: &Vec<String>, sep: &str) -> (r: String)
    ensures
        r@ == join_spec(parts@.map_values(|s: String| s@), sep@),
{
    let ghost views = parts@.map_values(|s: String| s@);
    let mut out = String::new();
    let n = parts.len();
    let mut i: usize = 0;
    while i < n
        invariant
            n == parts@.len(),
            i <= n,
            views == parts@.map_values(|s: String| s@),
            out@ == join_spec(views.take(i as int), sep@),
        decreases n - i,
    {
        if i > 0 {
            out.append(sep);
        }
        out.append(parts[i].as_str());
        proof {
            assert(views.take(i as int).push(views[i as int]) =~= views.take(i as int + 1));
            lemma_join_push(views.take(i as int), sep@, views[i as int]);
        }
        i = i + 1;
    }
    proof {
        assert(views.take(n as int) =~= views);
    }
    out
}

/// The decimal digit character for one value below ten.
pub open spec fn dec_digit(d: int) -> char {
    if d == 0 {
        '0'
    } else if d == 1 {
        '1'
    } else if d == 2 {
        '2'
    } else if d == 3 {
        '3'
    } else if d == 4 {
        '4'
    } else if d == 5 {
        '5'
    } else if d == 6 {
        '6'
    } else if d == 7 {
        '7'
    } else if d == 8 {
        '8'
    } else {
        '9'
    }
}

/// The usual decimal rendering of a number, most significant digit first,
/// without leading zeros (except for zero itself).
pub open spec fn dec_str(n: nat) -> Seq<char>
    decreases n,
{
    if n < 10 {
        seq![dec_digit(n as int)]
    } else {
        dec_str(n / 10) + seq![dec_digit((n % 10) as int)]
    }
}

/// The one-character string for a decimal digit.
fn digit_str(d: u64) -> (r: &'static str)
    requires
        d < 10,
    ensures
        r@ == seq![dec_digit(d as int)],
{
    proof {
        reveal_strlit("0");
        reveal_strlit("1");
        reveal_strlit("2");
        reveal_strlit("3");
        reveal_strlit("4");
        reveal_strlit("5");
        reveal_strlit("6");
        reveal_strlit("7");
        reveal_strlit("8");
        reveal_strlit("9");
    }
    match d {
        0 => "0",
        1 => "1",
        2 => "2",
        3 => "3",
        4 => "4",
        5 => "5",
        6 => "6",
        7 => "7",
        8 => "8",
        _ => "9",
    }
}

/// Render a number in decimal, as `dec_str` states it.
pub fn u64_to_string(n: u64) -> (r: String)
    ensures
        r@ == dec_str(n as nat),
    decreases n,
{
    if n < 10 {
        String::from_str(digit_str(n))
    } else {
        let prefix = u64_to_string(n / 10);
        prefix.concat(digit_str(n % 10))
    }
}

/// What an outside uppercase conversion returns for a given character
/// sequence: a function of the characters alone.
pub uninterp spec fn upper_of(s: Seq<char>) -> Seq<char>;

/// Relies on str::to_uppercase: the Unicode uppercase mapping, determined
/// by the characters alone; an empty string stays empty.
#[verifier::external_body]
pub fn to_uppercase_string(s: &str) -> (r: String)
    ensures
        r@ == upper_of(s@),
        s@.len() == 0 ==> r@.len() == 0,
{
    s.to_uppercase()
}

/// The configuration key a module looks its values up under:
/// namespace_modulename_key, or modulename_key without a namespace (the
/// uppercase convention is applied on top by the caller).
pub open spec fn create_key_spec(
    ns: Option<Seq<char>>,
    name: Seq<char>,
    key: Seq<char>,
) -> Seq<char> {
    match ns {
        Option::Some(n) => n + "_"@ + name + "_"@ + key,
        Option::None => name + "_"@ + key,
    }
}

/// "pointer=version" where the pointer and target names coincide, else
/// "pointer/target=version".
pub open spec fn repr_pointer_spec(
    pname: Seq<char>,
    name: Seq<char>,
    version: Seq<char>,
) -> Seq<char> {
    if pname == name {
        pname + "="@ + version
    } else {
        pname + "/"@ + name + "="@ + version
    }
}

/// Render the display name of a pointer symbol over its target module.
pub fn repr_pointer(pname: &str, name: &str, version: &str) -> (r: String)
    ensures
        r@ == repr_pointer_spec(pname@, name@, version@),
{
    let p = String::from_str(pname);
    let t = String::from_str(name);
    if p.eq(&t) {
        p.concat("=").concat(version)
    } else {
        p.concat("/").concat(name).concat("=").concat(version)
    }
}

} // verus!
