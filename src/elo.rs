use vstd::prelude::*;
use crate::models::{Game2v2, NewGame2v2, Team};

verus! {

/// The sensitivity of the rating update: the most a rating moves in one match.
pub const ELO_K_FACTOR: i32 = 16;

/// The first team is the recorded winner.
pub open spec fn team1_won(g: NewGame2v2) -> bool {
    g.winner_id@ == g.team1_id@
}

/// The record with the rating changes of a match filled in. `e` is the first
/// team's expected score scaled by the K factor and rounded,
/// `round(K / (1 + 10^((r2 - r1) / 400)))`: the winner gains `K - e` (or `e`
/// when the second team wins) and the loser loses as much.
pub open spec fn with_elo_changes(g: NewGame2v2, e: int) -> NewGame2v2 {
    if team1_won(g) {
        NewGame2v2 {
            team1_elo: (ELO_K_FACTOR - e) as i32,
            team2_elo: (e - ELO_K_FACTOR) as i32,
            ..g
        }
    } else {
        NewGame2v2 { team1_elo: (-e) as i32, team2_elo: e as i32, ..g }
    }
}

/// Fills in the rating changes of both teams from the outcome of the match
/// and the first team's scaled expected score.
pub fn calc_elo_changes(game: &mut NewGame2v2, team1_expected_points: i32)
    requires
        0 <= team1_expected_points <= ELO_K_FACTOR,
    ensures
        *final(game) == with_elo_changes(*old(game), team1_expected_points as int),
{
    let team1_won = game.winner_id == game.team1_id;
    if team1_won {
        game.team1_elo = ELO_K_FACTOR - team1_expected_points;
        game.team2_elo = team1_expected_points - ELO_K_FACTOR;
    } else {
        game.team1_elo = -team1_expected_points;
        game.team2_elo = team1_expected_points;
    }
}

/// The change a match makes to the rating of a team: its side's change, or
/// none when the team did not play.
pub open spec fn change_for(team_id: Seq<char>, g: Game2v2) -> int {
    if g.team1_id@ == team_id {
        g.team1_elo as int
    } else if g.team2_id@ == team_id {
        g.team2_elo as int
    } else {
        0
    }
}

pub open spec fn fits_i32(x: int) -> bool {
    i32::MIN <= x && x <= i32::MAX
}

/// The rating after adding the changes of the games one by one, or `None`
/// when a step leaves the range of `i32`.
pub open spec fn rating_after(rating: int, team_id: Seq<char>, games: Seq<Game2v2>) -> Option<int>
    decreases games.len(),
{
    if games.len() == 0 {
        Some(rating)
    } else {
        match rating_after(rating, team_id, games.drop_last()) {
            Some(r) => {
                let n = r + change_for(team_id, games.last());
                if fits_i32(n) { Some(n) } else { None }
            },
            None => None,
        }
    }
}

/// Adds the rating changes of the games to the team's rating, one game after
/// another. Returns false, with the rating left as it was, when a step would
/// leave the range of `i32`.
pub fn update_team_elo(team: &mut Team, games: &Vec<Game2v2>) -> (r: bool)
    ensures
        r == rating_after(old(team).elo as int, old(team).id@, games@).is_some(),
        r ==> *final(team) == (Team {
            elo: rating_after(old(team).elo as int, old(team).id@, games@)->0 as i32,
            ..*old(team)
        }),
        !r ==> *final(team) == *old(team),
{
    let mut rating: i32 = team.elo;
    let mut k: usize = 0;
    while k < games.len()
        invariant
            k <= games.len(),
            rating_after(team.elo as int, team.id@, games@.subrange(0, k as int)) == Some(
                rating as int,
            ),
        decreases games.len() - k,
    {
        let ghost pre = games@.subrange(0, k as int);
        let ghost post = games@.subrange(0, k as int + 1);
        assert(post.drop_last() =~= pre);
        let g = &games[k];
        let change: i64 = if g.team1_id == team.id {
            g.team1_elo as i64
        } else if g.team2_id == team.id {
            g.team2_elo as i64
        } else {
            0
        };
        let next = rating as i64 + change;
        if next < i32::MIN as i64 || next > i32::MAX as i64 {
            proof {
                lemma_rating_after_stays_none(team.elo as int, team.id@, games@, k as int + 1);
                assert(games@.subrange(0, games@.len() as int) =~= games@);
            }
            return false;
        }
        rating = next as i32;
        k += 1;
    }
    assert(games@.subrange(0, games@.len() as int) =~= games@);
    team.elo = rating;
    true
}

proof fn lemma_rating_after_stays_none(rating: int, id: Seq<char>, games: Seq<Game2v2>, k: int)
    requires
        0 <= k <= games.len(),
        rating_after(rating, id, games.subrange(0, k)).is_none(),
    ensures
        rating_after(rating, id, games).is_none(),
    decreases games.len() - k,
{
    if k < games.len() {
        assert(games.subrange(0, k + 1).drop_last() =~= games.subrange(0, k));
        lemma_rating_after_stays_none(rating, id, games, k + 1);
    } else {
        assert(games.subrange(0, k) =~= games);
    }
}

/// Rating updates of different matches do not depend on their order: when
/// two games apply without leaving the range of `i32` in either order, both
/// orders give the same rating.
pub proof fn lemma_updates_commute(rating: int, team_id: Seq<char>, g1: Game2v2, g2: Game2v2)
    requires
        rating_after(rating, team_id, seq![g1, g2]).is_some(),
        rating_after(rating, team_id, seq![g2, g1]).is_some(),
    ensures
        rating_after(rating, team_id, seq![g1, g2]) == rating_after(rating, team_id, seq![g2, g1]),
{
    assert(seq![g1, g2].drop_last() =~= seq![g1]);
    assert(seq![g2, g1].drop_last() =~= seq![g2]);
    assert(seq![g1].drop_last() =~= Seq::<Game2v2>::empty());
    assert(seq![g2].drop_last() =~= Seq::<Game2v2>::empty());
    reveal_with_fuel(rating_after, 3);
    assert(seq![g1, g2].last() == g2);
    assert(seq![g2, g1].last() == g1);
    assert(seq![g1].last() == g1);
    assert(seq![g2].last() == g2);
}

} // verus!
