use vstd::prelude::*;
use vstd::string::*;

verus! {

/// Characters with the Unicode `White_Space` property.
pub open spec fn is_white_space(c: char) -> bool {
    let u = c as u32;
    (0x09 <= u && u <= 0x0d) || u == 0x20 || u == 0x85 || u == 0xa0 || u == 0x1680 || (0x2000
        <= u && u <= 0x200a) || u == 0x2028 || u == 0x2029 || u == 0x202f || u == 0x205f || u
        == 0x3000
}

/// A text is blank when it holds white space only (or nothing at all).
pub open spec fn is_blank(s: Seq<char>) -> bool {
    forall|i: int| 0 <= i < s.len() ==> is_white_space(#[trigger] s[i])
}

/// The text without its leading white space.
pub open spec fn trim_start(s: Seq<char>) -> Seq<char>
    decreases s.len(),
{
    if s.len() > 0 && is_white_space(s[0]) {
        trim_start(s.drop_first())
    } else {
        s
    }
}

/// The text without its trailing white space.
pub open spec fn trim_end(s: Seq<char>) -> Seq<char>
    decreases s.len(),
{
    if s.len() > 0 && is_white_space(s.last()) {
        trim_end(s.drop_last())
    } else {
        s
    }
}

/// The text without leading and trailing white space.
pub open spec fn trimmed(s: Seq<char>) -> Seq<char> {
    trim_end(trim_start(s))
}

/// The decimal digit for a value below ten.
pub open spec fn digit_char(d: nat) -> char {
    seq!['0', '1', '2', '3', '4', '5', '6', '7', '8', '9'][d as int]
}

/// The decimal notation of a number, without leading zeros.
pub open spec fn decimal(n: nat) -> Seq<char>
    decreases n,
{
    if n < 10 {
        seq![digit_char(n)]
    } else {
        decimal(n / 10) + seq![digit_char(n % 10)]
    }
}

proof fn lemma_trim_start_blank(s: Seq<char>)
    ensures
        (trim_start(s).len() == 0) == is_blank(s),
        trim_start(s).len() > 0 ==> !is_white_space(trim_start(s)[0]),
    decreases s.len(),
{
    if s.len() > 0 && is_white_space(s[0]) {
        lemma_trim_start_blank(s.drop_first());
        if is_blank(s.drop_first()) {
            assert forall|i: int| 0 <= i < s.len() implies is_white_space(#[trigger] s[i]) by {
                if i > 0 {
                    assert(s[i] == s.drop_first()[i - 1]);
                }
            }
        }
        if is_blank(s) {
            assert forall|i: int| 0 <= i < s.drop_first().len() implies is_white_space(
                #[trigger] s.drop_first()[i],
            ) by {
                assert(s.drop_first()[i] == s[i + 1]);
            }
        }
    } else if s.len() > 0 {
        assert(!is_white_space(s[0]));
    }
}

proof fn lemma_trim_end_keeps_head(s: Seq<char>)
    requires
        s.len() > 0,
        !is_white_space(s[0]),
    ensures
        trim_end(s).len() > 0,
    decreases s.len(),
{
    if is_white_space(s.last()) {
        assert(s.len() > 1);
        assert(s.drop_last()[0] == s[0]);
        lemma_trim_end_keeps_head(s.drop_last());
    }
}

/// Trimming leaves nothing exactly when the text is blank.
pub proof fn lemma_trimmed_empty_iff_blank(s: Seq<char>)
    ensures
        (trimmed(s).len() == 0) == is_blank(s),
{
    lemma_trim_start_blank(s);
    if trim_start(s).len() > 0 {
        lemma_trim_end_keeps_head(trim_start(s));
    }
}

/// Relies on `str::trim`: leading and trailing `White_Space` characters removed.
#[verifier::external_body]
fn trim_text(s: &str) -> (r: &str)
    ensures
        r@ == trimmed(s@),
{
    s.trim()
}

/// Whether the text is blank, as the trimmed text being empty.
pub fn is_blank_text(s: &str) -> (r: bool)
    ensures
        r == is_blank(s@),
{
    let t = trim_text(s);
    proof {
        lemma_trimmed_empty_iff_blank(s@);
    }
    t.is_empty()
}

/// Whether two texts are equal.
pub fn same_text(a: &str, b: &str) -> (r: bool)
    ensures
        r == (a@ == b@),
{
    let x = String::from_str(a);
    let y = String::from_str(b);
    x == y
}

/// The decimal notation of `n`.
pub fn decimal_text(n: u64) -> (r: String)
    ensures
        r@ == decimal(n as nat),
{
    let digits = "0123456789";
    proof {
        reveal_strlit("0123456789");
    }
    let mut rev: Vec<usize> = Vec::new();
    let mut m: u64 = n;
    let ghost mut head: nat = n as nat;
    // collect digits from the least significant one
    loop
        invariant
            m as nat == head,
            forall|i: int| 0 <= i < rev@.len() ==> #[trigger] rev@[i] < 10,
            decimal(n as nat) == decimal(head) + rev_digits(rev@),
        ensures
            m < 10,
            m as nat == head,
            forall|i: int| 0 <= i < rev@.len() ==> #[trigger] rev@[i] < 10,
            decimal(n as nat) == decimal(head) + rev_digits(rev@),
        decreases m,
    {
        if m < 10 {
            break ;
        }
        let d = (m % 10) as usize;
        proof {
            assert(decimal(head) == decimal(head / 10) + seq![digit_char(head % 10)]);
            assert(rev_digits(rev@.push(d)) =~= seq![digit_char(d as nat)] + rev_digits(rev@)) by {
                lemma_rev_digits_push(rev@, d);
            }
        }
        rev.push(d);
        m = m / 10;
        proof {
            head = head / 10;
        }
    }
    let mut r = String::new();
    let first = digits.substring_char(m as usize, m as usize + 1);
    r.append(first);
    assert(r@ =~= decimal(head));
    let mut k: usize = rev.len();
    assert(rev@.subrange(0, k as int) =~= rev@);
    while k > 0
        invariant
            k <= rev@.len(),
            digits@ =~= seq!['0', '1', '2', '3', '4', '5', '6', '7', '8', '9'],
            forall|i: int| 0 <= i < rev@.len() ==> #[trigger] rev@[i] < 10,
            decimal(n as nat) == decimal(head) + rev_digits(rev@),
            r@ + rev_digits(rev@.subrange(0, k as int)) == decimal(n as nat),
        decreases k,
    {
        let d = rev[k - 1];
        let piece = digits.substring_char(d, d + 1);
        proof {
            lemma_rev_digits_push(rev@.subrange(0, k - 1), d);
            assert(rev@.subrange(0, k - 1).push(d) =~= rev@.subrange(0, k as int));
            assert(piece@ =~= seq![digit_char(d as nat)]);
        }
        r.append(piece);
        k = k - 1;
        assert(r@ + rev_digits(rev@.subrange(0, k as int)) =~= decimal(n as nat));
    }
    assert(rev@.subrange(0, 0) =~= Seq::<usize>::empty());
    assert(r@ =~= decimal(n as nat));
    r
}

/// Digits stored least significant first, written most significant first.
spec fn rev_digits(ds: Seq<usize>) -> Seq<char>
    decreases ds.len(),
{
    if ds.len() == 0 {
        Seq::empty()
    } else {
        rev_digits(ds.drop_first()) + seq![digit_char(ds[0] as nat)]
    }
}

proof fn lemma_rev_digits_push(ds: Seq<usize>, d: usize)
    ensures
        rev_digits(ds.push(d)) =~= seq![digit_char(d as nat)] + rev_digits(ds),
    decreases ds.len(),
{
    assert(ds.push(d).len() > 0);
    if ds.len() == 0 {
        assert(ds.push(d).drop_first() =~= Seq::<usize>::empty());
        assert(ds.push(d)[0] == d);
        assert(rev_digits(Seq::<usize>::empty()) =~= Seq::<char>::empty());
    } else {
        assert(ds.push(d).drop_first() =~= ds.drop_first().push(d));
        assert(ds.push(d)[0] == ds[0]);
        lemma_rev_digits_push(ds.drop_first(), d);
    }
}

} // verus!
