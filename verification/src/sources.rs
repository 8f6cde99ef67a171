//! Where the configuration is read from, and in which order.

use vstd::prelude::*;

use crate::text::views;

verus! {

/// Whether a file name ends in the extension of a fragment, behind a name of its own.
pub open spec fn is_fragment(name: Seq<char>) -> bool {
    name.len() > 5 && name.skip(name.len() - 5) == ".toml"@
}

/// Whether a name stands before another, or is the same: the first character in which they differ
/// decides, and a name stands before those that it begins.
pub open spec fn in_order(a: Seq<char>, b: Seq<char>) -> bool
    decreases a.len(),
{
    if a.len() == 0 {
        true
    } else if b.len() == 0 {
        false
    } else if a[0] == b[0] {
        in_order(a.skip(1), b.skip(1))
    } else {
        a[0] < b[0]
    }
}

/// Whether names stand in order.
pub open spec fn sorted(names: Seq<Seq<char>>) -> bool {
    forall|i: int, j: int|
        0 <= i < j < names.len() ==> in_order(#[trigger] names[i], #[trigger] names[j])
}

/// The order of names compares any two of them.
pub proof fn order_is_total(a: Seq<char>, b: Seq<char>)
    ensures
        in_order(a, b) || in_order(b, a),
        in_order(a, b) && in_order(b, a) ==> a == b,
    decreases a.len(),
{
    if a.len() > 0 && b.len() > 0 && a[0] == b[0] {
        order_is_total(a.skip(1), b.skip(1));
        assert(seq![a[0]] + a.skip(1) =~= a);
        assert(seq![b[0]] + b.skip(1) =~= b);
    } else if a.len() == 0 && b.len() == 0 {
        assert(a =~= b);
    }
}

/// The order of names goes on from one name to the next.
pub proof fn order_is_transitive(a: Seq<char>, b: Seq<char>, c: Seq<char>)
    requires
        in_order(a, b),
        in_order(b, c),
    ensures
        in_order(a, c),
    decreases a.len(),
{
    if a.len() > 0 && a[0] == b[0] && b[0] == c[0] {
        order_is_transitive(a.skip(1), b.skip(1), c.skip(1));
    }
}

fn stands_before(a: &str, b: &str) -> (r: bool)
    ensures
        r == in_order(a@, b@),
{
    let n: usize = a.unicode_len();
    let m: usize = b.unicode_len();
    let mut i: usize = 0;
    assert(a@.skip(0) =~= a@);
    assert(b@.skip(0) =~= b@);
    while i < n
        invariant
            i <= n,
            i <= m,
            n == a@.len(),
            m == b@.len(),
            in_order(a@, b@) == in_order(a@.skip(i as int), b@.skip(i as int)),
        decreases n - i,
    {
        if i == m {
            return false;
        }
        let x: char = a.get_char(i);
        let y: char = b.get_char(i);
        if x != y {
            return x < y;
        }
        proof {
            assert(a@.skip(i as int).skip(1) =~= a@.skip(i + 1));
            assert(b@.skip(i as int).skip(1) =~= b@.skip(i + 1));
        }
        i += 1;
    }
    true
}

fn has_extension(name: &str) -> (r: bool)
    ensures
        r == is_fragment(name@),
{
    let n: usize = name.unicode_len();
    if n <= 5 {
        return false;
    }
    proof {
        reveal_strlit(".toml");
        let end = name@.skip(n - 5);
        assert(end == ".toml"@ <==> end[0] == '.' && end[1] == 't' && end[2] == 'o' && end[3] == 'm'
            && end[4] == 'l') by {
            if end[0] == '.' && end[1] == 't' && end[2] == 'o' && end[3] == 'm' && end[4] == 'l' {
                assert(end =~= ".toml"@);
            }
        }
    }
    name.get_char(n - 5) == '.' && name.get_char(n - 4) == 't' && name.get_char(n - 3) == 'o'
        && name.get_char(n - 2) == 'm' && name.get_char(n - 1) == 'l'
}

/// The fragments among the files of a directory, in order.
pub fn fragments(names: &Vec<String>) -> (r: Vec<String>)
    ensures
        views(r@).to_multiset() == views(names@).filter(|n: Seq<char>| is_fragment(n)).to_multiset(),
        sorted(views(r@)),
{
    broadcast use vstd::seq_lib::to_multiset_insert, vstd::seq_lib::to_multiset_build;

    let mut out: Vec<String> = Vec::new();
    let ghost pred = |n: Seq<char>| is_fragment(n);
    assert(views(out@) =~= Seq::empty());
    assert(views(names@).take(0) =~= Seq::empty());
    assert(views(names@).take(0).filter(pred) =~= Seq::empty());
    let mut i: usize = 0;
    while i < names.len()
        invariant
            i <= names@.len(),
            pred == (|n: Seq<char>| is_fragment(n)),
            views(out@).to_multiset() == views(names@).take(i as int).filter(pred).to_multiset(),
            sorted(views(out@)),
        decreases names@.len() - i,
    {
        broadcast use vstd::seq_lib::to_multiset_insert, vstd::seq_lib::to_multiset_build;

        let name = names[i].as_str();
        proof {
            let seen = views(names@).take(i + 1);
            assert(seen.drop_last() =~= views(names@).take(i as int));
            assert(seen.last() == name@);
            reveal_with_fuel(Seq::filter, 2);
        }
        if has_extension(name) {
            let ghost was = views(out@);
            let mut k: usize = 0;
            while k < out.len() && stands_before(out[k].as_str(), name)
                invariant
                    k <= out@.len(),
                    was == views(out@),
                    forall|j: int| 0 <= j < k ==> in_order(#[trigger] was[j], name@),
                decreases out@.len() - k,
            {
                assert(was[k as int] == out@[k as int]@);
                k += 1;
            }
            out.insert(k, name.to_owned());
            proof {
                let now = views(out@);
                assert(now =~= was.insert(k as int, name@));
                if k < was.len() {
                    order_is_total(was[k as int], name@);
                }
                assert forall|x: int, y: int| 0 <= x < y < now.len() implies in_order(
                    #[trigger] now[x],
                    #[trigger] now[y],
                ) by {
                    if x < k && y > k {
                        assert(now[x] == was[x] && now[y] == was[y - 1]);
                    } else if x == k {
                        assert(now[y] == was[y - 1]);
                        if y - 1 > k {
                            assert(in_order(was[k as int], was[y - 1]));
                            order_is_transitive(name@, was[k as int], was[y - 1]);
                        }
                    } else if x > k {
                        assert(now[x] == was[x - 1] && now[y] == was[y - 1]);
                    } else if y < k {
                        assert(now[x] == was[x] && now[y] == was[y]);
                    }
                }
            }
        }
        i += 1;
    }
    assert(views(names@).take(i as int) =~= views(names@));
    out
}

/// The directories that hold configuration, by the one of the user.
pub open spec fn directories(home: Option<Seq<char>>) -> Seq<Seq<char>> {
    seq!["/usr/share/cecd"@, "/etc/cecd"@] + (match home {
        Some(home) => seq![home + "/cecd"@],
        None => Seq::empty(),
    })
}

/// The directories that hold configuration: those of the system, then that of the user, if there is
/// one. What is read later overrides what is read before.
pub fn config_dirs(home: Option<&str>) -> (r: Vec<String>)
    ensures
        views(r@) == directories(
            match home {
                Some(home) => Some(home@),
                None => None,
            },
        ),
{
    let mut out: Vec<String> = Vec::new();
    out.push("/usr/share/cecd".to_owned());
    out.push("/etc/cecd".to_owned());
    if let Some(home) = home {
        let mut dir: String = home.to_owned();
        dir.append("/cecd");
        out.push(dir);
    }
    assert(views(out@) =~= seq!["/usr/share/cecd"@, "/etc/cecd"@] + (match home {
        Some(home) => seq![home@ + "/cecd"@],
        None => Seq::empty(),
    }));
    out
}

/// The files of a directory that holds configuration, in the order in which they are read, by the
/// names of what lies in the directory of fragments: first the configuration itself, then the
/// fragments.
pub fn config_files(dir: &str, names: &Vec<String>) -> (r: Vec<String>)
    ensures
        r@.len() >= 1,
        r@[0]@ == dir@ + "/config.toml"@,
        exists|list: Seq<Seq<char>>| #[trigger]
            sorted(list) && list.to_multiset() == views(names@).filter(
                |n: Seq<char>| is_fragment(n),
            ).to_multiset() && views(r@).skip(1) == list.map_values(
                |n: Seq<char>| dir@ + "/config.d/"@ + n,
            ),
{
    let list = fragments(names);
    let mut out: Vec<String> = Vec::new();
    let mut first: String = dir.to_owned();
    first.append("/config.toml");
    out.push(first);
    let mut i: usize = 0;
    while i < list.len()
        invariant
            i <= list@.len(),
            out@.len() == i + 1,
            out@[0]@ == dir@ + "/config.toml"@,
            forall|k: int| 0 <= k < i ==> (#[trigger] out@[k + 1])@ == dir@ + "/config.d/"@ + list@[k]@,
        decreases list@.len() - i,
    {
        let mut path: String = dir.to_owned();
        path.append("/config.d/");
        path.append(list[i].as_str());
        let ghost was = out@;
        out.push(path);
        proof {
            assert forall|k: int| 0 <= k < i + 1 implies (#[trigger] out@[k + 1])@ == dir@
                + "/config.d/"@ + list@[k]@ by {
                if k < i {
                    assert(out@[k + 1] == was[k + 1]);
                }
            }
        }
        i += 1;
    }
    proof {
        let names_in_order = views(list@);
        let below = names_in_order.map_values(|n: Seq<char>| dir@ + "/config.d/"@ + n);
        assert(views(out@).skip(1) =~= below) by {
            assert forall|k: int| 0 <= k < below.len() implies views(out@).skip(1)[k] == below[k] by {
                assert(out@[k + 1]@ == dir@ + "/config.d/"@ + list@[k]@);
            }
        }
        assert(sorted(names_in_order));
    }
    out
}

/// The order in which fragments are read is settled by their names.
pub proof fn order_is_settled(a: Seq<Seq<char>>, b: Seq<Seq<char>>)
    requires
        sorted(a),
        sorted(b),
        a.to_multiset() == b.to_multiset(),
    ensures
        a == b,
    decreases a.len(),
{
    broadcast use vstd::seq_lib::group_to_multiset_ensures;

    assert(a.len() == a.to_multiset().len() && b.len() == b.to_multiset().len());
    if a.len() == 0 {
        assert(a =~= b);
    } else {
        assert(a.contains(a[0]) && b.contains(b[0]));
        assert(b.to_multiset().count(a[0]) > 0 && a.to_multiset().count(b[0]) > 0);
        assert(b.contains(a[0]) && a.contains(b[0]));
        let i = choose|i: int| 0 <= i < b.len() && b[i] == a[0];
        let j = choose|j: int| 0 <= j < a.len() && a[j] == b[0];
        order_is_total(a[0], b[0]);
        if i > 0 {
            assert(in_order(b[0], b[i]));
        }
        if j > 0 {
            assert(in_order(a[0], a[j]));
        }
        assert(a[0] == b[0]);
        assert(a.remove(0).to_multiset() =~= b.remove(0).to_multiset());
        let (x, y) = (a.remove(0), b.remove(0));
        assert forall|p: int, q: int| 0 <= p < q < x.len() implies in_order(
            #[trigger] x[p],
            #[trigger] x[q],
        ) by {
            assert(x[p] == a[p + 1] && x[q] == a[q + 1]);
        }
        assert forall|p: int, q: int| 0 <= p < q < y.len() implies in_order(
            #[trigger] y[p],
            #[trigger] y[q],
        ) by {
            assert(y[p] == b[p + 1] && y[q] == b[q + 1]);
        }
        order_is_settled(x, y);
        assert forall|k: int| 0 <= k < a.len() implies a[k] == b[k] by {
            if k > 0 {
                assert(a[k] == x[k - 1] && b[k] == y[k - 1]);
            }
        }
        assert(a =~= b);
    }
}

/// The first character in which two names differ decides which stands first.
pub proof fn the_first_difference_decides(a: Seq<char>, b: Seq<char>, n: int)
    requires
        0 <= n < a.len(),
        n < b.len(),
        a.take(n) == b.take(n),
        a[n] < b[n],
    ensures
        in_order(a, b),
        !in_order(b, a),
    decreases n,
{
    if n > 0 {
        assert(a.take(n)[0] == a[0] && b.take(n)[0] == b[0]);
        assert(a.skip(1).take(n - 1) =~= a.take(n).skip(1));
        assert(b.skip(1).take(n - 1) =~= b.take(n).skip(1));
        the_first_difference_decides(a.skip(1), b.skip(1), n - 1);
    }
}

/// A name stands before those that it begins.
pub proof fn a_beginning_stands_first(a: Seq<char>, rest: Seq<char>)
    ensures
        in_order(a, a + rest),
        rest.len() > 0 ==> !in_order(a + rest, a),
    decreases a.len(),
{
    if a.len() > 0 {
        a_beginning_stands_first(a.skip(1), rest);
        assert((a + rest).skip(1) =~= a.skip(1) + rest);
    }
}

/// A fragment has a name of its own with the extension behind it, and whatever has that is one.
pub proof fn fragments_have_an_extension(name: Seq<char>, stem: Seq<char>)
    ensures
        stem.len() > 0 ==> is_fragment(stem + ".toml"@),
        is_fragment(name) ==> exists|s: Seq<char>| s.len() > 0 && name == #[trigger] (s + ".toml"@),
{
    reveal_strlit(".toml");
    assert((stem + ".toml"@).skip(stem.len() as int) =~= ".toml"@);
    if is_fragment(name) {
        let s = name.take(name.len() - 5);
        assert(name =~= s + ".toml"@);
    }
}

/// What comes with the system is read first, then what its administrator says, and then what the
/// user says.
pub proof fn the_user_has_the_last_word(home: Seq<char>)
    ensures
        directories(Some(home)).len() == 3,
        directories(Some(home))[0] == "/usr/share/cecd"@,
        directories(Some(home))[1] == "/etc/cecd"@,
        directories(Some(home))[2] == home + "/cecd"@,
        directories(None) == directories(Some(home)).take(2),
{
    assert(directories(None) =~= directories(Some(home)).take(2));
}

} // verus!
