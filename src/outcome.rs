use vstd::prelude::*;
use crate::models::{read_back, stored_row, NewGame2v2};

verus! {

broadcast use vstd::string::group_string_axioms;

/// Largest magnitude an `i32` can hold (that of `i32::MIN`).
pub const I32_MAGNITUDE: i64 = 2147483648;

pub open spec fn is_digit(c: char) -> bool {
    '0' <= c && c <= '9'
}

pub open spec fn digit_value(c: char) -> int {
    c as int - '0' as int
}

/// The value of a sequence of decimal digits, most significant first.
pub open spec fn digits_value(s: Seq<char>) -> int
    decreases s.len(),
{
    if s.len() == 0 {
        0
    } else {
        digits_value(s.drop_last()) * 10 + digit_value(s.last())
    }
}

pub open spec fn all_digits(s: Seq<char>) -> bool {
    forall|i: int| 0 <= i < s.len() ==> is_digit(#[trigger] s[i])
}

/// The integer that a text denotes as `i32::from_str` reads it: an optional sign
/// followed by at least one decimal digit, before the range check.
pub open spec fn signed_value(s: Seq<char>) -> Option<int> {
    if s.len() == 0 {
        None
    } else if (s[0] == '+' || s[0] == '-') && s.len() == 1 {
        None
    } else {
        let body = if s[0] == '+' || s[0] == '-' { s.drop_first() } else { s };
        if all_digits(body) {
            Some(if s[0] == '-' { -digits_value(body) } else { digits_value(body) })
        } else {
            None
        }
    }
}

/// The score that a field gives when it reads as an `i32`; a field that does
/// not makes the line malformed.
pub open spec fn score_of(s: Seq<char>) -> Option<int> {
    match signed_value(s) {
        Some(v) => if i32::MIN <= v && v <= i32::MAX { Some(v) } else { None },
        None => None,
    }
}

/// The line holds the marker `R ` somewhere.
pub open spec fn has_marker(l: Seq<char>) -> bool {
    exists|k: int| 0 <= k && k + 1 < l.len() && l[k] == 'R' && #[trigger] l[k + 1] == ' '
}

/// The spaces of `l` stand at `i` and `j` and nowhere else: split at single
/// spaces, the line has exactly three fields.
pub open spec fn splits_at(l: Seq<char>, i: int, j: int) -> bool {
    &&& 0 <= i < j < l.len()
    &&& l[i] == ' '
    &&& l[j] == ' '
    &&& forall|k: int| 0 <= k < l.len() && k != i && k != j ==> #[trigger] l[k] != ' '
}

pub open spec fn has_three_fields(l: Seq<char>) -> bool {
    exists|i: int, j: int| splits_at(l, i, j)
}

/// The slot that a colour tag names: red and blue play for the first team,
/// green and yellow for the second.
pub open spec fn tag_slot(t: Seq<char>) -> Option<int> {
    if t == "red"@ {
        Some(0)
    } else if t == "blue"@ {
        Some(1)
    } else if t == "green"@ {
        Some(2)
    } else if t == "yellow"@ {
        Some(3)
    } else {
        None
    }
}

/// What one line of match output reports: a slot and its score, or nothing
/// when the line is not `<marker> <integer score> <slot tag>`.
pub open spec fn line_entry(l: Seq<char>) -> Option<(int, int)> {
    if has_marker(l) && has_three_fields(l) {
        let (i, j) = choose|i: int, j: int| splits_at(l, i, j);
        match (tag_slot(l.subrange(j + 1, l.len() as int)), score_of(l.subrange(i + 1, j))) {
            (Some(slot), Some(score)) => Some((slot, score)),
            _ => None,
        }
    } else {
        None
    }
}

/// The four slot scores after reading the lines in order; a later report of a
/// slot replaces an earlier one, malformed lines are ignored, and an
/// unreported slot scores 0.
pub open spec fn slot_scores(lines: Seq<Seq<char>>) -> Seq<int>
    decreases lines.len(),
{
    if lines.len() == 0 {
        seq![0, 0, 0, 0]
    } else {
        let before = slot_scores(lines.drop_last());
        match line_entry(lines.last()) {
            Some((slot, score)) => before.update(slot, score),
            None => before,
        }
    }
}

/// Whether the first team wins on these four slot scores. A slot survives when
/// its score is positive. A team wins outright when it has a survivor and the
/// other team has none; otherwise the higher sum of the two slot scores wins,
/// and a tie goes to the second team.
pub open spec fn team1_wins(s: Seq<int>) -> bool {
    let a = s[0] > 0;
    let b = s[1] > 0;
    let c = s[2] > 0;
    let d = s[3] > 0;
    if (a || b) && !c && !d {
        true
    } else if (c || d) && !a && !b {
        false
    } else {
        s[0] + s[1] > s[2] + s[3]
    }
}

/// The views of a vector of strings.
pub open spec fn lines_view(lines: Seq<String>) -> Seq<Seq<char>> {
    lines.map_values(|l: String| l@)
}

/// The record `g` with the outcome that these scores give filled in.
pub open spec fn scored_record(g: NewGame2v2, s: Seq<int>) -> NewGame2v2 {
    NewGame2v2 {
        team1bot1_survived: s[0] > 0,
        team1bot2_survived: s[1] > 0,
        team2bot1_survived: s[2] > 0,
        team2bot2_survived: s[3] > 0,
        winner_id: if team1_wins(s) { g.team1_id } else { g.team2_id },
        ..g
    }
}

proof fn lemma_digits_value_nonneg(s: Seq<char>)
    requires
        all_digits(s),
    ensures
        digits_value(s) >= 0,
    decreases s.len(),
{
    if s.len() > 0 {
        lemma_digits_value_nonneg(s.drop_last());
    }
}

proof fn lemma_splits_unique(l: Seq<char>, i: int, j: int, i2: int, j2: int)
    requires
        splits_at(l, i, j),
        splits_at(l, i2, j2),
    ensures
        i == i2 && j == j2,
{
    if i != i2 {
        if i < i2 {
            assert(l[i] != ' ' || i == j2);
        } else {
            assert(l[i2] != ' ' || i2 == j);
        }
    }
    if j != j2 {
        assert(l[j] != ' ' || j == i2);
    }
}

/// The characters of a string, in order.
fn chars_of(s: &String) -> (r: Vec<char>)
    ensures
        r@ == s@,
{
    let st = s.as_str();
    let n = st.unicode_len();
    let mut v: Vec<char> = Vec::new();
    let mut i: usize = 0;
    while i < n
        invariant
            n == st@.len(),
            st@ == s@,
            i <= n,
            v@ == st@.subrange(0, i as int),
        decreases n - i,
    {
        v.push(st.get_char(i));
        i += 1;
        assert(v@ =~= st@.subrange(0, i as int));
    }
    assert(v@ =~= s@);
    v
}

/// Whether `v[from..to]` spells `lit`.
fn field_is(v: &Vec<char>, from: usize, to: usize, lit: &str) -> (r: bool)
    requires
        from <= to <= v.len(),
    ensures
        r == (v@.subrange(from as int, to as int) == lit@),
{
    let n = lit.unicode_len();
    if to - from != n {
        return false;
    }
    let mut k: usize = 0;
    while k < n
        invariant
            n == lit@.len(),
            to - from == n,
            from <= to <= v.len(),
            k <= n,
            forall|q: int| 0 <= q < k ==> v@[from + q] == lit@[q],
        decreases n - k,
    {
        if v[from + k] != lit.get_char(k) {
            assert(v@.subrange(from as int, to as int)[k as int] != lit@[k as int]);
            return false;
        }
        k += 1;
    }
    assert(v@.subrange(from as int, to as int) =~= lit@);
    true
}

/// The slot that the field `v[from..]` names, as `tag_slot` says.
fn slot_of_tag(v: &Vec<char>, from: usize) -> (r: Option<usize>)
    requires
        from <= v.len(),
    ensures
        match tag_slot(v@.subrange(from as int, v@.len() as int)) {
            Some(k) => r == Some(k as usize),
            None => r.is_none(),
        },
{
    let to = v.len();
    if field_is(v, from, to, "red") {
        Some(0)
    } else if field_is(v, from, to, "blue") {
        Some(1)
    } else if field_is(v, from, to, "green") {
        Some(2)
    } else if field_is(v, from, to, "yellow") {
        Some(3)
    } else {
        None
    }
}

/// Reads the field `v[from..to]` as a score: its value when it is an `i32`
/// in decimal with an optional sign, else nothing.
pub fn parse_score(v: &Vec<char>, from: usize, to: usize) -> (r: Option<i32>)
    requires
        from <= to <= v.len(),
    ensures
        match score_of(v@.subrange(from as int, to as int)) {
            Some(x) => r == Some(x as i32),
            None => r.is_none(),
        },
{
    let ghost s = v@.subrange(from as int, to as int);
    if from == to {
        return None;
    }
    let first = v[from];
    assert(s[0] == first);
    let signed = first == '+' || first == '-';
    if signed && to - from == 1 {
        return None;
    }
    let start: usize = if signed { from + 1 } else { from };
    let ghost body = v@.subrange(start as int, to as int);
    assert(body =~= (if signed { s.drop_first() } else { s }));
    let mut acc: i64 = 0;
    let mut too_large = false;
    let mut k: usize = start;
    while k < to
        invariant
            from <= start <= k <= to <= v.len(),
            body == v@.subrange(start as int, to as int),
            s == v@.subrange(from as int, to as int),
            s.len() > 0 && s[0] == first,
            signed == (first == '+' || first == '-'),
            !(signed && s.len() == 1),
            body == (if signed { s.drop_first() } else { s }),
            all_digits(v@.subrange(start as int, k as int)),
            !too_large ==> acc as int == digits_value(v@.subrange(start as int, k as int)),
            !too_large ==> 0 <= acc <= I32_MAGNITUDE,
            too_large ==> digits_value(v@.subrange(start as int, k as int)) > I32_MAGNITUDE,
        decreases to - k,
    {
        let c = v[k];
        let ghost pre = v@.subrange(start as int, k as int);
        let ghost next = v@.subrange(start as int, k as int + 1);
        assert(next.drop_last() =~= pre);
        if !('0' <= c && c <= '9') {
            assert(body[k - start] == c);
            assert(!is_digit(body[k - start]));
            assert(!all_digits(body));
            assert(s.len() > 1 || !(s[0] == '+' || s[0] == '-'));
            assert(signed_value(s).is_none());
            return None;
        }
        proof {
            lemma_digits_value_nonneg(pre);
        }
        let d = (c as u32 - '0' as u32) as i64;
        if !too_large {
            let grown = acc * 10 + d;
            if grown > I32_MAGNITUDE {
                too_large = true;
            } else {
                acc = grown;
            }
        }
        k += 1;
        assert(all_digits(v@.subrange(start as int, k as int)));
    }
    assert(v@.subrange(start as int, to as int) =~= body);
    if too_large {
        return None;
    }
    if first == '-' {
        Some((0 - acc) as i32)
    } else if acc > i32::MAX as i64 {
        None
    } else {
        Some(acc as i32)
    }
}

/// What one line of match output reports, as `line_entry` says.
pub fn read_line(line: &String) -> (r: Option<(usize, i32)>)
    ensures
        match line_entry(line@) {
            Some((slot, score)) => r == Some((slot as usize, score as i32)),
            None => r.is_none(),
        },
{
    let v = chars_of(line);
    let n = v.len();
    let ghost l = line@;
    let mut marker = false;
    let mut spaces: usize = 0;
    let mut i: usize = 0;
    let mut j: usize = 0;
    let mut third: usize = 0;
    let mut k: usize = 0;
    while k < n
        invariant
            n == v.len(),
            v@ == l,
            k <= n,
            marker ==> has_marker(l),
            !marker ==> forall|q: int| 0 <= q && q + 1 < k ==> !(l[q] == 'R' && #[trigger] l[q + 1] == ' '),
            spaces <= 3,
            spaces >= 1 ==> i < k && l[i as int] == ' ',
            spaces >= 2 ==> i < j < k && l[j as int] == ' ',
            spaces >= 3 ==> j < third < k && l[third as int] == ' ',
            spaces == 0 ==> forall|q: int| 0 <= q < k ==> l[q] != ' ',
            spaces == 1 ==> forall|q: int| 0 <= q < k && q != i ==> l[q] != ' ',
            spaces == 2 ==> forall|q: int| 0 <= q < k && q != i && q != j ==> l[q] != ' ',
        decreases n - k,
    {
        if v[k] == ' ' {
            if k > 0 && v[k - 1] == 'R' {
                marker = true;
                assert(l[k - 1] == 'R' && l[(k - 1) + 1] == ' ');
            }
            if spaces == 0 {
                i = k;
                spaces = 1;
            } else if spaces == 1 {
                j = k;
                spaces = 2;
            } else if spaces == 2 {
                third = k;
                spaces = 3;
            }
        }
        k += 1;
    }
    if !marker {
        assert(!has_marker(l));
        return None;
    }
    if spaces != 2 {
        proof {
            if spaces < 2 {
                assert forall|a: int, b: int| !splits_at(l, a, b) by {
                    if splits_at(l, a, b) {
                        if spaces == 0 {
                            assert(l[a] != ' ');
                        } else {
                            assert(a == i || l[a] != ' ');
                            assert(b == i || l[b] != ' ');
                        }
                    }
                }
            } else {
                assert forall|a: int, b: int| !splits_at(l, a, b) by {
                    if splits_at(l, a, b) {
                        assert(i == a || i == b);
                        assert(j == a || j == b);
                        assert(third == a || third == b);
                    }
                }
            }
        }
        return None;
    }
    assert(splits_at(l, i as int, j as int));
    proof {
        let (a, b) = choose|a: int, b: int| splits_at(l, a, b);
        lemma_splits_unique(l, i as int, j as int, a, b);
    }
    match (slot_of_tag(&v, j + 1), parse_score(&v, i + 1, j)) {
        (Some(slot), Some(score)) => Some((slot, score)),
        _ => None,
    }
}

proof fn lemma_slot_scores_len(lines: Seq<Seq<char>>)
    ensures
        slot_scores(lines).len() == 4,
    decreases lines.len(),
{
    if lines.len() > 0 {
        lemma_slot_scores_len(lines.drop_last());
    }
}

/// Whether the first team wins on the four slot scores, as `team1_wins` says.
pub fn first_team_wins(red: i32, blue: i32, green: i32, yellow: i32) -> (r: bool)
    ensures
        r == team1_wins(seq![red as int, blue as int, green as int, yellow as int]),
{
    let a = red > 0;
    let b = blue > 0;
    let c = green > 0;
    let d = yellow > 0;
    if (a || b) && !c && !d {
        true
    } else if (c || d) && !a && !b {
        false
    } else {
        red as i64 + blue as i64 > green as i64 + yellow as i64
    }
}

/// Reads the match output and fills in the survival flags and the winner of
/// `match_game`; every other field is kept.
pub fn parse_game(lines: &Vec<String>, match_game: NewGame2v2) -> (r: NewGame2v2)
    ensures
        r == scored_record(match_game, slot_scores(lines_view(lines@))),
{
    let mut scores: Vec<i32> = vec![0, 0, 0, 0];
    let mut k: usize = 0;
    while k < lines.len()
        invariant
            k <= lines.len(),
            scores.len() == 4,
            slot_scores(lines_view(lines@.subrange(0, k as int))).len() == 4,
            forall|q: int| 0 <= q < 4 ==> scores@[q] as int == #[trigger] slot_scores(
                lines_view(lines@.subrange(0, k as int)),
            )[q],
        decreases lines.len() - k,
    {
        let ghost before = lines_view(lines@.subrange(0, k as int));
        let ghost after = lines_view(lines@.subrange(0, k as int + 1));
        assert(after.drop_last() =~= before);
        assert(after.last() == lines@[k as int]@);
        proof {
            lemma_slot_scores_len(after);
        }
        match read_line(&lines[k]) {
            Some((slot, score)) => {
                scores.set(slot, score);
            },
            None => {},
        }
        k += 1;
    }
    assert(lines@.subrange(0, lines.len() as int) =~= lines@);
    let ghost s = slot_scores(lines_view(lines@));
    let mut g = match_game;
    g.team1bot1_survived = scores[0] > 0;
    g.team1bot2_survived = scores[1] > 0;
    g.team2bot1_survived = scores[2] > 0;
    g.team2bot2_survived = scores[3] > 0;
    let team1 = first_team_wins(scores[0], scores[1], scores[2], scores[3]);
    assert(seq![scores@[0] as int, scores@[1] as int, scores@[2] as int, scores@[3] as int] =~= s);
    if team1 {
        g.winner_id = g.team1_id.clone();
    } else {
        g.winner_id = g.team2_id.clone();
    }
    g
}

/// The outcome of a match depends on the slot scores alone: two outputs that
/// leave the same four scores give the same survival flags and the same winner.
pub proof fn lemma_outcome_determined_by_scores(
    out1: Seq<Seq<char>>,
    out2: Seq<Seq<char>>,
    g: NewGame2v2,
)
    requires
        slot_scores(out1) == slot_scores(out2),
    ensures
        scored_record(g, slot_scores(out1)) == scored_record(g, slot_scores(out2)),
{
}

/// A scored match always names one of its two teams as the winner.
pub proof fn lemma_winner_is_a_team(out: Seq<Seq<char>>, g: NewGame2v2)
    ensures
        scored_record(g, slot_scores(out)).winner_id == g.team1_id
            || scored_record(g, slot_scores(out)).winner_id == g.team2_id,
{
}

/// A scored match, stored and read back, keeps its identifiers, its survival
/// flags and its winner.
pub proof fn lemma_stored_outcome_round_trip(out: Seq<Seq<char>>, g: NewGame2v2, created: i64)
    ensures
        ({
            let rec = scored_record(g, slot_scores(out));
            let back = read_back(stored_row(rec, created));
            &&& back.id == rec.id
            &&& back.competition_id == rec.competition_id
            &&& back.round == rec.round
            &&& back.team1_id == rec.team1_id
            &&& back.team2_id == rec.team2_id
            &&& back.team1bot1_id == rec.team1bot1_id
            &&& back.team1bot2_id == rec.team1bot2_id
            &&& back.team2bot1_id == rec.team2bot1_id
            &&& back.team2bot2_id == rec.team2bot2_id
            &&& back.team1bot1_survived == rec.team1bot1_survived
            &&& back.team1bot2_survived == rec.team1bot2_survived
            &&& back.team2bot1_survived == rec.team2bot1_survived
            &&& back.team2bot2_survived == rec.team2bot2_survived
            &&& back.winner_id == rec.winner_id
        }),
{
}

} // verus!
