//! The label that tells one connection's log messages from those of every other.
use crate::options::{ClientHandleOptions, OptionsView};
use vstd::prelude::*;
use vstd::string::*;

verus! {

/// The number that is handed out after `id`. They count up, and start over after the largest.
pub open spec fn id_after(id: usize) -> usize {
    if id == usize::MAX {
        0
    } else {
        (id + 1) as usize
    }
}

/// The number that is handed out `draws` draws after `id`.
pub open spec fn id_after_draws(id: usize, draws: nat) -> usize
    decreases draws,
{
    if draws == 0 {
        id
    } else {
        id_after(id_after_draws(id, (draws - 1) as nat))
    }
}

/// Hands out the numbers that tell connections apart.
pub struct ClientIds {
    next: usize,
}

impl View for ClientIds {
    type V = usize;

    /// The number that is handed out next.
    closed spec fn view(&self) -> usize {
        self.next
    }
}

impl ClientIds {
    /// Starts at zero.
    pub fn new() -> (ids: ClientIds)
        ensures
            ids@ == 0,
    {
        ClientIds { next: 0 }
    }

    /// Hands out a number. They count up, and start over once the largest has been handed out.
    pub fn next_id(&mut self) -> (id: usize)
        ensures
            id == old(self)@,
            final(self)@ == id_after(old(self)@),
    {
        let id: usize = self.next;
        self.next = if id == usize::MAX {
            0
        } else {
            id + 1
        };
        id
    }
}

/// The decimal digit of value `d`.
pub open spec fn digit(d: nat) -> char
    recommends
        d < 10,
{
    (48 + d) as char
}

/// The decimal digits of `n`, without leading zeros.
pub open spec fn decimal(n: nat) -> Seq<char>
    decreases n,
{
    if n < 10 {
        seq![digit(n)]
    } else {
        decimal(n / 10).push(digit(n % 10))
    }
}

/// What stands in front of the number in a connection's label: the name, if there is one, and
/// the url.
pub open spec fn label_prefix(options: OptionsView) -> Seq<char> {
    match options.name {
        Some(name) => name + " "@ + options.url,
        None => options.url,
    }
}

/// The label of the connection with number `id`.
pub open spec fn label(options: OptionsView, id: nat) -> Seq<char> {
    label_prefix(options) + " #"@ + decimal(id)
}

fn push_digit(out: &mut String, d: usize)
    requires
        d < 10,
    ensures
        final(out)@ == old(out)@.push(digit(d as nat)),
{
    proof {
        reveal_strlit("0");
        reveal_strlit("1");
        reveal_strlit("2");
        reveal_strlit("3");
        reveal_strlit("4");
        reveal_strlit("5");
        reveal_strlit("6");
        reveal_strlit("7");
        reveal_strlit("8");
        reveal_strlit("9");
    }
    let text: &str = if d == 0 {
        "0"
    } else if d == 1 {
        "1"
    } else if d == 2 {
        "2"
    } else if d == 3 {
        "3"
    } else if d == 4 {
        "4"
    } else if d == 5 {
        "5"
    } else if d == 6 {
        "6"
    } else if d == 7 {
        "7"
    } else if d == 8 {
        "8"
    } else {
        "9"
    };
    assert(text@ =~= seq![digit(d as nat)]);
    out.append(text);
}

fn push_decimal(out: &mut String, n: usize)
    ensures
        final(out)@ == old(out)@ + decimal(n as nat),
    decreases n,
{
    if n >= 10 {
        push_decimal(out, n / 10);
    }
    push_digit(out, n % 10);
}

/// Builds the prefix that every connection level log message carries.
///
/// The name makes two sockets to the same url tellable apart, and the number keeps even
/// identically named connections distinct.
pub fn connection_label(options: &ClientHandleOptions, id: usize) -> (text: String)
    ensures
        text@ == label(options@, id as nat),
{
    let mut text = String::new();
    match options.label_name() {
        Some(name) => {
            text.append(name.as_str());
            text.append(" ");
        },
        None => {},
    }
    text.append(options.url());
    text.append(" #");
    push_decimal(&mut text, id);
    text
}

proof fn lemma_decimal_is_digits(n: nat)
    ensures
        decimal(n).len() > 0,
        forall|i: int| 0 <= i < decimal(n).len() ==> decimal(n)[i] != '#',
    decreases n,
{
    if n >= 10 {
        lemma_decimal_is_digits(n / 10);
    }
}

proof fn lemma_decimal_injective(m: nat, n: nat)
    requires
        decimal(m) == decimal(n),
    ensures
        m == n,
    decreases m,
{
    lemma_decimal_is_digits(m / 10);
    lemma_decimal_is_digits(n / 10);
    assert(decimal(m).last() == digit(m % 10));
    assert(decimal(n).last() == digit(n % 10));
    if m >= 10 && n >= 10 {
        assert(decimal(m).drop_last() =~= decimal(m / 10));
        assert(decimal(n).drop_last() =~= decimal(n / 10));
        lemma_decimal_injective(m / 10, n / 10);
    }
}

/// Connections with different numbers never share a label, whatever their names and urls are.
pub proof fn labels_are_distinct(a: OptionsView, i: nat, b: OptionsView, j: nat)
    requires
        i != j,
    ensures
        label(a, i) != label(b, j),
{
    reveal_strlit(" #");
    lemma_decimal_is_digits(i);
    lemma_decimal_is_digits(j);
    let la = label(a, i);
    let lb = label(b, j);
    let da = decimal(i);
    let db = decimal(j);
    if la == lb {
        assert(la[la.len() - da.len() - 1] == '#');
        assert(lb[lb.len() - db.len() - 1] == '#');
        if da.len() < db.len() {
            assert(lb[la.len() - da.len() - 1] == db[db.len() - da.len() - 1]);
        } else if db.len() < da.len() {
            assert(la[lb.len() - db.len() - 1] == da[da.len() - db.len() - 1]);
        } else {
            assert(da =~= la.skip(la.len() - da.len()));
            assert(db =~= lb.skip(lb.len() - db.len()));
            lemma_decimal_injective(i, j);
        }
    }
}

proof fn lemma_id_after_draws(id: usize, draws: nat)
    requires
        draws <= usize::MAX,
    ensures
        id_after_draws(id, draws) == if id + draws <= usize::MAX {
            id + draws
        } else {
            id + draws - usize::MAX - 1
        },
    decreases draws,
{
    if draws > 0 {
        lemma_id_after_draws(id, (draws - 1) as nat);
    }
}

proof fn lemma_draws_add_up(id: usize, some: nat, more: nat)
    ensures
        id_after_draws(id, some + more) == id_after_draws(id_after_draws(id, some), more),
    decreases more,
{
    if more > 0 {
        lemma_draws_add_up(id, some, (more - 1) as nat);
    }
}

/// Two draws with fewer than `usize::MAX` others between them give different numbers, and so
/// connections with different labels, whatever their names and urls are. Here `first` is the number
/// of the first of all draws, and `i` and `j` count the draws before the two.
pub proof fn drawn_ids_tell_connections_apart(
    first: usize,
    a: OptionsView,
    i: nat,
    b: OptionsView,
    j: nat,
)
    requires
        i < j,
        j - i - 1 < usize::MAX,
    ensures
        id_after_draws(first, i) != id_after_draws(first, j),
        label(a, id_after_draws(first, i) as nat) != label(b, id_after_draws(first, j) as nat),
{
    let earlier = id_after_draws(first, i);
    let between = (j - i) as nat;
    lemma_draws_add_up(first, i, between);
    lemma_id_after_draws(earlier, between);
    labels_are_distinct(a, earlier as nat, b, id_after_draws(first, j) as nat);
}

/// The number that these decimal digits write.
pub open spec fn written(digits: Seq<char>) -> int
    decreases digits.len(),
{
    if digits.len() == 0 {
        0
    } else {
        10 * written(digits.drop_last()) + (digits.last() as int - '0' as int)
    }
}

/// The digits of a number write that number, are digits, and do not start with a zero but for the
/// number zero.
pub proof fn digits_write_the_number(n: nat)
    ensures
        written(decimal(n)) == n,
        decimal(n).len() > 0,
        forall|i: int| 0 <= i < decimal(n).len() ==> '0' <= #[trigger] decimal(n)[i] <= '9',
        n > 0 ==> decimal(n)[0] != '0',
        n == 0 ==> decimal(n) == seq!['0'],
    decreases n,
{
    if n < 10 {
        assert(decimal(n).drop_last() =~= Seq::<char>::empty());
        assert(written(decimal(n).drop_last()) == 0);
        assert(decimal(n) =~= seq![digit(n)]);
    } else {
        digits_write_the_number(n / 10);
        assert(decimal(n).drop_last() =~= decimal(n / 10));
        assert(decimal(n)[0] == decimal(n / 10)[0]);
    }
}

/// A label is the name and a blank where there is a name, the url, a blank and a number sign, and
/// the digits of the connection's number, and nothing else.
pub proof fn label_is_made_up_of_its_parts(options: OptionsView, id: nat)
    ensures
        options.name is Some ==> label(options, id) == options.name->0 + " "@ + options.url + " #"@
            + decimal(id),
        options.name is None ==> label(options, id) == options.url + " #"@ + decimal(id),
{
}

/// Numbers are handed out one by one, and start over after the largest.
pub proof fn ids_count_up(id: usize)
    ensures
        id < usize::MAX ==> id_after(id) == id + 1,
        id == usize::MAX ==> id_after(id) == 0,
{
}

/// A label starts with the name and a blank, or with the url where there is no name, and it
/// holds the url.
pub proof fn label_shows_name_and_url(options: OptionsView, id: nat)
    ensures
        match options.name {
            Some(name) => (name + " "@).is_prefix_of(label(options, id)),
            None => options.url.is_prefix_of(label(options, id)),
        },
        exists|start: int, end: int|
            0 <= start <= end <= label(options, id).len() && #[trigger] label(options, id).subrange(
                start,
                end,
            ) == options.url,
{
    let text = label(options, id);
    let start: int = match options.name {
        Some(name) => (name + " "@).len() as int,
        None => 0,
    };
    assert(text.subrange(start, start + options.url.len()) =~= options.url);
}

} // verus!
