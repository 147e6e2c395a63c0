//! Output targets: where a clip is stored, and the timestamp sanitising that
//! makes the file name safe.

use vstd::prelude::*;
use vstd::string::*;

verus! {

/// Replaces every colon with a hyphen, keeping every other character.
pub open spec fn sanitize(ts: Seq<char>) -> Seq<char> {
    Seq::new(ts.len(), |i: int| if ts[i] == ':' { '-' } else { ts[i] })
}

/// `<folder>/<network>_<device>_<sanitized timestamp>.mp4`
pub open spec fn output_path_of(
    folder: Seq<char>,
    network: Seq<char>,
    device: Seq<char>,
    timestamp: Seq<char>,
) -> Seq<char> {
    folder + "/"@ + network + "_"@ + device + "_"@ + sanitize(timestamp) + ".mp4"@
}

/// The timestamp with each colon replaced by a hyphen.
pub fn sanitize_timestamp(ts: &str) -> (r: String)
    ensures
        r@ == sanitize(ts@),
{
    let n = ts.unicode_len();
    let mut r = String::new();
    let mut i: usize = 0;
    while i < n
        invariant
            n == ts@.len(),
            i <= n,
            r@ == sanitize(ts@.subrange(0, i as int)),
        decreases n - i,
    {
        let c = ts.get_char(i);
        if c == ':' {
            r.append("-");
        } else {
            r.append(ts.substring_char(i, i + 1));
        }
        proof {
            reveal_strlit("-");
            assert(sanitize(ts@.subrange(0, i + 1)) =~= sanitize(ts@.subrange(0, i as int)).push(
                if c == ':' { '-' } else { c },
            ));
        }
        assert(r@ =~= sanitize(ts@.subrange(0, i + 1)));
        i = i + 1;
    }
    assert(ts@.subrange(0, n as int) =~= ts@);
    r
}

/// The deterministic file a clip is stored in; its presence means the clip is
/// already synchronised.
pub fn output_path(folder: &str, network: &str, device: &str, timestamp: &str) -> (r: String)
    ensures
        r@ == output_path_of(folder@, network@, device@, timestamp@),
{
    let mut r = String::from_str(folder);
    r.append("/");
    r.append(network);
    r.append("_");
    r.append(device);
    r.append("_");
    let t = sanitize_timestamp(timestamp);
    r.append(t.as_str());
    r.append(".mp4");
    r
}

/// Sanitising never leaves a colon and keeps the length.
pub proof fn lemma_sanitize_total(ts: Seq<char>)
    ensures
        sanitize(ts).len() == ts.len(),
        forall|i: int| 0 <= i < ts.len() ==> sanitize(ts)[i] != ':',
{
}

/// Two timestamps give the same sanitised text exactly when they have the same
/// length and, at each position, agree or both hold a colon or a hyphen.
pub proof fn lemma_sanitize_collision(s: Seq<char>, t: Seq<char>)
    ensures
        sanitize(s) == sanitize(t) <==> (s.len() == t.len() && forall|i: int|
            0 <= i < s.len() ==> (s[i] == t[i] || ((s[i] == ':' || s[i] == '-') && (t[i] == ':'
                || t[i] == '-')))),
{
    if sanitize(s) == sanitize(t) {
        assert(s.len() == sanitize(s).len() && t.len() == sanitize(t).len());
        assert forall|i: int| 0 <= i < s.len() implies (s[i] == t[i] || ((s[i] == ':' || s[i]
            == '-') && (t[i] == ':' || t[i] == '-'))) by {
            assert(sanitize(s)[i] == sanitize(t)[i]);
            assert(sanitize(s)[i] == (if s[i] == ':' { '-' } else { s[i] }));
            assert(sanitize(t)[i] == (if t[i] == ':' { '-' } else { t[i] }));
        }
    }
    if s.len() == t.len() && forall|i: int|
        0 <= i < s.len() ==> (s[i] == t[i] || ((s[i] == ':' || s[i] == '-') && (t[i] == ':'
            || t[i] == '-'))) {
        assert(sanitize(s) =~= sanitize(t));
    }
}

/// Timestamps without hyphens never collide: where colons stand differently,
/// the sanitised texts differ.
pub proof fn lemma_sanitize_injective_without_hyphens(s: Seq<char>, t: Seq<char>)
    requires
        forall|i: int| 0 <= i < s.len() ==> s[i] != '-',
        forall|i: int| 0 <= i < t.len() ==> t[i] != '-',
        sanitize(s) == sanitize(t),
    ensures
        s == t,
{
    lemma_sanitize_collision(s, t);
    assert(s =~= t);
}

/// For one folder, network and device, timestamps without hyphens that
/// differ, colon placement included, lead to different output paths.
pub proof fn lemma_output_paths_distinct(
    folder: Seq<char>,
    network: Seq<char>,
    device: Seq<char>,
    t1: Seq<char>,
    t2: Seq<char>,
)
    requires
        forall|i: int| 0 <= i < t1.len() ==> t1[i] != '-',
        forall|i: int| 0 <= i < t2.len() ==> t2[i] != '-',
        t1 != t2,
    ensures
        output_path_of(folder, network, device, t1) != output_path_of(folder, network, device, t2),
{
    let prefix = folder + "/"@ + network + "_"@ + device + "_"@;
    let suffix = ".mp4"@;
    let p1 = output_path_of(folder, network, device, t1);
    let p2 = output_path_of(folder, network, device, t2);
    assert(p1 == prefix + sanitize(t1) + suffix);
    assert(p2 == prefix + sanitize(t2) + suffix);
    if p1 == p2 {
        assert(sanitize(t1).len() == sanitize(t2).len());
        let lo = prefix.len() as int;
        let hi = lo + sanitize(t1).len();
        assert(p1.subrange(lo, hi) =~= sanitize(t1));
        assert(p2.subrange(lo, hi) =~= sanitize(t2));
        lemma_sanitize_injective_without_hyphens(t1, t2);
    }
}

} // verus!
