use matchmaker::compile::{recorded_error, BotCompilation, CompileAction, CompileEvent, CompileStage};
use matchmaker::elo::{calc_elo_changes, update_team_elo, ELO_K_FACTOR};
use matchmaker::errors::{command_outcome, MatchMakerError};
use matchmaker::matches::{plan_match, prepare_match};
use matchmaker::models::{
    Bot, BotSelector, Competition, Game2v2, NewGame2v2, NewTeam, Role, SqlGame2v2, Team, DEFAULT_ELO,
};
use matchmaker::outcome::{first_team_wins, parse_game, parse_score, read_line};
use matchmaker::pairing::{create_match_pairs, pair_indices};
use matchmaker::round::{
    compile_team_bots, run_2v2_round, run_competitions_round, CompetitionsAction,
    CompetitionsEvent, RoundAction, RoundEvent, RoundStage,
};
use matchmaker::text::int_text;

fn team(id: &str, bot1: &str, bot2: &str, elo: i32) -> Team {
    Team {
        id: id.to_string(),
        name: format!("team {}", id),
        owner: format!("owner-{}", id),
        partner: String::new(),
        competition_id: "c1".to_string(),
        bot1: bot1.to_string(),
        bot2: bot2.to_string(),
        elo,
        created: 0,
    }
}

fn competition(round: i32, games: i32) -> Competition {
    Competition {
        id: "c1".to_string(),
        name: "spring".to_string(),
        start: 0,
        end: 10,
        allowed_submissions: true,
        round,
        type_: "2v2".to_string(),
        games_per_round: games,
        created: 0,
    }
}

fn game() -> NewGame2v2 {
    NewGame2v2::new(
        "c1".to_string(),
        3,
        "t1".to_string(),
        "t2".to_string(),
        "b1".to_string(),
        "b2".to_string(),
        "b3".to_string(),
        "b4".to_string(),
    )
}

fn lines(ls: &[&str]) -> Vec<String> {
    ls.iter().map(|l| l.to_string()).collect()
}

fn chars(s: &str) -> Vec<char> {
    s.chars().collect()
}

#[test]
fn scenario_lone_red_survivor_wins_for_team1() {
    let out = lines(&["R 10 red", "R 0 blue", "R 0 green", "R 0 yellow"]);
    let g = parse_game(&out, game());
    assert!(g.team1bot1_survived);
    assert!(!g.team1bot2_survived);
    assert!(!g.team2bot1_survived);
    assert!(!g.team2bot2_survived);
    assert_eq!(g.winner_id, "t1");
}

#[test]
fn scenario_score_sum_decides_without_dominance() {
    let out = lines(&["R 5 red", "R 5 blue", "R 3 green", "R 0 yellow"]);
    let g = parse_game(&out, game());
    assert!(g.team1bot1_survived && g.team1bot2_survived);
    assert!(g.team2bot1_survived && !g.team2bot2_survived);
    assert_eq!(g.winner_id, "t1");
}

#[test]
fn team2_wins_when_team1_is_wiped_out() {
    let out = lines(&["noise", "R 0 red", "R 0 blue", "R 1 green", "R 0 yellow"]);
    let g = parse_game(&out, game());
    assert_eq!(g.winner_id, "t2");
}

#[test]
fn tie_on_sums_goes_to_team2() {
    let out = lines(&["R 4 red", "R 0 blue", "R 4 green", "R 0 yellow"]);
    assert_eq!(parse_game(&out, game()).winner_id, "t2");
    let none = parse_game(&Vec::new(), game());
    assert!(!none.team1bot1_survived && !none.team2bot2_survived);
    assert_eq!(none.winner_id, "t2");
}

#[test]
fn later_report_replaces_earlier_one() {
    let out = lines(&["R 9 green", "R 0 green", "R 2 blue"]);
    let g = parse_game(&out, game());
    assert!(!g.team2bot1_survived);
    assert!(g.team1bot2_survived);
    assert_eq!(g.winner_id, "t1");
}

#[test]
fn malformed_score_line_is_ignored() {
    let out = lines(&["R 5 red", "R abc red", "R 0 green"]);
    let g = parse_game(&out, game());
    assert!(g.team1bot1_survived);
    assert_eq!(g.winner_id, "t1");
    let clean = parse_game(&lines(&["R 5 red", "R 0 green"]), game());
    assert_eq!(clean.team1bot1_survived, g.team1bot1_survived);
    assert_eq!(clean.winner_id, g.winner_id);
}

#[test]
fn parsing_twice_gives_the_same_outcome() {
    let out = lines(&["R 3 red", "R 7 yellow", "R 1 blue"]);
    let a = parse_game(&out, game());
    let b = parse_game(&out, game());
    assert_eq!(a.winner_id, b.winner_id);
    assert_eq!(
        (a.team1bot1_survived, a.team1bot2_survived, a.team2bot1_survived, a.team2bot2_survived),
        (b.team1bot1_survived, b.team1bot2_survived, b.team2bot1_survived, b.team2bot2_survived)
    );
}

#[test]
fn winner_rule_by_survivors_and_sums() {
    assert!(first_team_wins(1, 1, 0, 0));
    assert!(!first_team_wins(0, 0, 0, 2));
    assert!(first_team_wins(3, 0, 2, 0));
    assert!(!first_team_wins(2, 0, 3, 0));
    assert!(!first_team_wins(0, 0, 0, 0));
    assert!(first_team_wins(i32::MAX, i32::MAX, i32::MAX, i32::MAX - 1));
}

#[test]
fn score_fields_read_like_i32() {
    let cases: [(&str, Option<i32>); 9] = [
        ("42", Some(42)),
        ("+5", Some(5)),
        ("-3", Some(-3)),
        ("", None),
        ("+", None),
        ("4x", None),
        ("2147483647", Some(2147483647)),
        ("2147483648", None),
        ("-2147483648", Some(-2147483648)),
    ];
    for (s, v) in cases.iter() {
        let c = chars(s);
        assert_eq!(parse_score(&c, 0, c.len()), *v, "field {:?}", s);
    }
}

#[test]
fn line_reports_need_marker_and_three_fields() {
    assert_eq!(read_line(&"R 12 yellow".to_string()), Some((3, 12)));
    assert_eq!(read_line(&"XR 5 red".to_string()), Some((0, 5)));
    assert_eq!(read_line(&"R 5 red extra".to_string()), None);
    assert_eq!(read_line(&"R 5 purple".to_string()), None);
    assert_eq!(read_line(&"Q 5 red".to_string()), None);
    assert_eq!(read_line(&"R abc blue".to_string()), None);
    assert_eq!(read_line(&"R 99999999999 blue".to_string()), None);
}

#[test]
fn pairing_count_and_indices() {
    for (n, k) in [(4usize, 2i32), (5, 3), (3, 1), (0, 4), (6, 0), (2, -1)] {
        let p = pair_indices(n, k);
        let pool = if k > 0 { n * k as usize } else { 0 };
        assert!(p.len() <= pool / 2);
        assert!(p.len() <= (pool + 1) / 2);
        if k <= 1 {
            assert_eq!(p.len(), pool / 2);
        }
        let mut played = vec![0i32; n];
        for (a, b) in p.iter() {
            assert!(*a < n && *b < n);
            assert_ne!(a, b);
            played[*a] += 1;
            played[*b] += 1;
        }
        assert!(played.iter().all(|c| *c <= k.max(0)));
        assert!(played.iter().filter(|c| **c < k.max(0)).count() <= 1);
    }
}

#[test]
fn pairing_once_each_never_self_pairs() {
    for _ in 0..50 {
        let p = pair_indices(7, 1);
        assert_eq!(p.len(), 3);
        let mut seen = vec![0; 7];
        for (a, b) in p.iter() {
            assert_ne!(a, b);
            seen[*a] += 1;
            seen[*b] += 1;
        }
        assert!(seen.iter().all(|c| *c <= 1));
    }
}

#[test]
fn pairing_never_puts_a_team_against_itself() {
    assert_eq!(pair_indices(1, 2), Vec::new());
    for _ in 0..50 {
        let p = pair_indices(2, 3);
        assert_eq!(p.len(), 3);
        assert!(p.iter().all(|(a, b)| a != b));
    }
}

#[test]
fn match_pairs_are_roster_teams() {
    let roster = vec![team("a", "x", "y", 1000), team("b", "z", "w", 1000)];
    let pairs = create_match_pairs(1, &roster);
    assert_eq!(pairs.len(), 1);
    let mut ids = vec![pairs[0].0.id.clone(), pairs[0].1.id.clone()];
    ids.sort();
    assert_eq!(ids, vec!["a".to_string(), "b".to_string()]);
}

fn bot(id: &str, path: &str) -> Bot {
    Bot {
        id: id.to_string(),
        team_id: "t1".to_string(),
        bot_name: "bot".to_string(),
        source_path: path.to_string(),
        compilation_error: String::new(),
        created: 0,
    }
}

fn run_args(a: &CompileAction) -> (String, Vec<String>) {
    match a {
        CompileAction::Run(c, v) => (c.clone(), v.clone()),
        other => panic!("expected a command, got {:?}", other),
    }
}

#[test]
fn compilation_runs_copy_unzip_list_and_compiler() {
    let b = bot("b7", "./resources/uploads/c1/x/MyBot.zip");
    let (mut m, first) = BotCompilation::compile_bot(&b);
    match first {
        CompileAction::CreateDir(d) => assert_eq!(d, "./resources/workdir/bots/b7"),
        other => panic!("{:?}", other),
    }
    let cp = m.step(CompileEvent::Done);
    assert_eq!(
        run_args(&cp),
        ("cp".to_string(), lines(&["./resources/uploads/c1/x/MyBot.zip", "./resources/workdir/bots/b7"]))
    );
    let unzip = m.step(CompileEvent::Done);
    assert_eq!(
        run_args(&unzip),
        (
            "unzip".to_string(),
            lines(&["-o", "./resources/workdir/bots/b7/MyBot.zip", "-d", "./resources/workdir/bots/b7"])
        )
    );
    match m.step(CompileEvent::Done) {
        CompileAction::ListFiles(d) => assert_eq!(d, "./resources/workdir/bots/b7"),
        other => panic!("{:?}", other),
    }
    let listing = lines(&[
        "./resources/workdir/bots/b7/MyBot.zip",
        "./resources/workdir/bots/b7/Main.java",
        "./resources/workdir/bots/b7/lib/Util.java",
        "./resources/workdir/bots/b7/.java",
        "./resources/workdir/bots/b7/notes.txt",
    ]);
    let javac = m.step(CompileEvent::Listed(listing));
    assert_eq!(
        run_args(&javac),
        (
            "javac".to_string(),
            lines(&["./resources/workdir/bots/b7/Main.java", "./resources/workdir/bots/b7/lib/Util.java"])
        )
    );
    match m.step(CompileEvent::Done) {
        CompileAction::Finish(Ok(())) => {}
        other => panic!("{:?}", other),
    }
    assert!(m.is_finished());
}

#[test]
fn scenario_empty_archive_fails_with_no_source_files() {
    let b = bot("b8", "./uploads/Empty.zip");
    let (mut m, _) = BotCompilation::compile_bot(&b);
    m.step(CompileEvent::Done);
    m.step(CompileEvent::Done);
    m.step(CompileEvent::Done);
    match m.step(CompileEvent::Listed(lines(&["./resources/workdir/bots/b8/Empty.zip"]))) {
        CompileAction::Finish(Err(e)) => assert_eq!(e, MatchMakerError::NoSourceFiles),
        other => panic!("{:?}", other),
    }
    assert_eq!(m.stage, CompileStage::Finished);
    let roster = vec![team("a", "b8", "b9", 1000), team("b", "b1", "b2", 1000), team("c", "b3", "b4", 1000)];
    let kept = compile_team_bots(&roster, &vec![false, true, true]);
    let ids: Vec<String> = kept.iter().map(|t| t.id.clone()).collect();
    assert_eq!(ids, vec!["b".to_string(), "c".to_string()]);
}

#[test]
fn compilation_failure_ends_with_that_error() {
    let (mut m, _) = BotCompilation::compile_bot(&bot("b1", "/a/B.zip"));
    match m.step(CompileEvent::Failed(MatchMakerError::IOError("denied".to_string()))) {
        CompileAction::Finish(Err(e)) => assert_eq!(e, MatchMakerError::IOError("denied".to_string())),
        other => panic!("{:?}", other),
    }
    let (mut m, _) = BotCompilation::compile_bot(&bot("b2", "/a/.."));
    m.step(CompileEvent::Done);
    match m.step(CompileEvent::Done) {
        CompileAction::Finish(Err(e)) => assert_eq!(e, MatchMakerError::InvalidPath("/a/..".to_string())),
        other => panic!("{:?}", other),
    }
}

#[test]
fn teams_missing_a_bot_are_left_out() {
    let roster = vec![team("a", "", "y", 1000), team("b", "z", "w", 1000), team("c", "q", "", 1000)];
    let kept = compile_team_bots(&roster, &vec![true, true]);
    assert_eq!(kept.len(), 1);
    assert_eq!(kept[0].id, "b");
}

#[test]
fn scenario_equal_ratings_winner_gains_half_k() {
    let expected: f64 = 1.0 / (1.0 + 10f64.powf((1000.0 - 1000.0) / 400.0));
    assert_eq!(expected, 0.5);
    let points = (ELO_K_FACTOR as f64 * expected).round() as i32;
    let mut g = game();
    g.winner_id = "t1".to_string();
    calc_elo_changes(&mut g, points);
    assert_eq!(g.team1_elo, 8);
    assert_eq!(g.team2_elo, -8);
    let mut h = game();
    h.winner_id = "t2".to_string();
    calc_elo_changes(&mut h, 3);
    assert_eq!(h.team1_elo, -3);
    assert_eq!(h.team2_elo, 3);
}

fn stored(g: NewGame2v2) -> Game2v2 {
    Game2v2::from_row(SqlGame2v2::from_new(g, 77))
}

#[test]
fn ratings_add_each_game_change() {
    let mut g1 = game();
    g1.team1_elo = 8;
    g1.team2_elo = -8;
    let mut g2 = game();
    g2.team1_id = "t9".to_string();
    g2.team2_id = "t1".to_string();
    g2.team1_elo = 5;
    g2.team2_elo = -5;
    let mut t = team("t1", "b1", "b2", 1000);
    assert!(update_team_elo(&mut t, &vec![stored(g1), stored(g2)]));
    assert_eq!(t.elo, 1003);
    let mut g3 = game();
    g3.team1_elo = 1;
    let mut top = team("t1", "b1", "b2", i32::MAX);
    assert!(!update_team_elo(&mut top, &vec![stored(g3)]));
    assert_eq!(top.elo, i32::MAX);
}

#[test]
fn stored_match_reads_back_the_same() {
    let out = lines(&["R 2 blue", "R 1 yellow"]);
    let g = parse_game(&out, game());
    let back = stored(g.clone());
    assert_eq!(back.id, g.id);
    assert_eq!(back.winner_id, g.winner_id);
    assert_eq!(back.team1bot2_id, "b2");
    assert_eq!(
        (back.team1bot1_survived, back.team1bot2_survived, back.team2bot1_survived, back.team2bot2_survived),
        (false, true, false, true)
    );
    assert_eq!(back.created, 77);
}

#[test]
fn new_record_has_fresh_id_and_log_path() {
    let g = game();
    assert_eq!(g.id.len(), 36);
    assert!(g.id.chars().all(|c| c.is_ascii_digit() || ('a'..='f').contains(&c) || c == '-'));
    assert_eq!(g.log_file_path, format!("./resources/games/3/{}.txt", g.id));
    assert!(g.winner_id.is_empty());
    assert!(g.team1bot1_survived && g.team2bot2_survived);
    assert_ne!(g.id, game().id);
}

#[test]
fn match_plan_stages_four_bots_in_slot_order() {
    let c = competition(2, 1);
    let (g, p) = prepare_match(&c, &team("t1", "b1", "b2", 1000), &team("t2", "b3", "b4", 1000));
    assert_eq!(g.round, 2);
    let folder = format!("./resources/matches/{}", g.id);
    assert_eq!(p.folder, folder);
    assert_eq!(p.copies.len(), 4);
    assert_eq!(p.copies[2], ("./resources/workdir/bots/b3".to_string(), format!("{}/b3", folder)));
    assert_eq!(p.program, "java");
    assert_eq!(p.args[0], "-jar");
    assert_eq!(p.args[1], "resources/gamefiles/Evaluator.jar");
    assert_eq!(p.args[5], format!("{}/b4", folder));
    assert_eq!(p.log_file, g.log_file_path);
    assert_eq!(plan_match(&g).args, p.args);
}

#[test]
fn round_runs_through_its_steps() {
    let (mut r, a) = run_2v2_round("c1".to_string());
    assert!(matches!(a, RoundAction::FetchCompetition(ref id) if id == "c1"));
    let a = r.step(RoundEvent::Competition(competition(4, 1)));
    assert!(matches!(a, RoundAction::FetchTeams(ref id) if id == "c1"));
    let roster = vec![team("a", "1", "2", 1000), team("b", "", "3", 1000), team("c", "4", "5", 1000)];
    let a = r.step(RoundEvent::Teams(roster));
    let candidates = match a {
        RoundAction::CompileTeams(v) => v,
        other => panic!("{:?}", other),
    };
    assert_eq!(candidates.len(), 2);
    let a = r.step(RoundEvent::Compiled(vec![true, true]));
    match a {
        RoundAction::PlayMatches(c, ps) => {
            assert_eq!(c.round, 4);
            assert_eq!(ps.len(), 1);
        }
        other => panic!("{:?}", other),
    }
    assert!(matches!(r.step(RoundEvent::Done), RoundAction::CleanUp));
    assert!(matches!(r.step(RoundEvent::Done), RoundAction::SaveRound(ref id, 5) if id == "c1"));
    match r.step(RoundEvent::Done) {
        RoundAction::Finish(Ok(ps)) => assert_eq!(ps.len(), 1),
        other => panic!("{:?}", other),
    }
    assert_eq!(r.stage, RoundStage::Finished);
}

#[test]
fn round_stops_on_a_fetch_failure() {
    let (mut r, _) = run_2v2_round("c9".to_string());
    let e = MatchMakerError::DatabaseError("gone".to_string());
    assert!(r.accepts(&RoundEvent::Failed(e.clone())));
    assert!(!r.accepts(&RoundEvent::Done));
    match r.step(RoundEvent::Failed(e.clone())) {
        RoundAction::Finish(Err(x)) => assert_eq!(x, e),
        other => panic!("{:?}", other),
    }
    assert!(r.is_finished());
}

#[test]
fn scheduled_run_rounds_each_2v2_competition() {
    let (mut s, a) = run_competitions_round();
    assert!(matches!(a, CompetitionsAction::FetchRunning));
    let mut other = competition(0, 1);
    other.id = "c2".to_string();
    other.type_ = "1v1".to_string();
    let mut third = competition(0, 1);
    third.id = "c3".to_string();
    let a = s.step(CompetitionsEvent::Running(vec![competition(0, 1), other, third]));
    assert!(matches!(a, CompetitionsAction::RunRound(ref id) if id == "c1"));
    let a = s.step(CompetitionsEvent::RoundDone);
    assert!(matches!(a, CompetitionsAction::RunRound(ref id) if id == "c3"));
    let a = s.step(CompetitionsEvent::RoundDone);
    assert!(matches!(a, CompetitionsAction::Finish(Ok(()))));
    let (mut s, _) = run_competitions_round();
    s.step(CompetitionsEvent::Running(vec![competition(0, 1)]));
    let e = MatchMakerError::IOError("disk".to_string());
    assert!(matches!(s.step(CompetitionsEvent::Failed(e)), CompetitionsAction::Finish(Err(_))));
}

#[test]
fn errors_and_exit_codes() {
    assert_eq!(int_text(-120), "-120");
    assert_eq!(int_text(0), "0");
    assert_eq!(int_text(i64::MIN), i64::MIN.to_string());
    assert_eq!(MatchMakerError::ProcessFailed(Some(2)).message(), "Command executed with non-zero exit status: 2");
    assert_eq!(MatchMakerError::NoSourceFiles.message(), "No Java files found");
    assert_eq!(MatchMakerError::IOError("x".to_string()).message(), "IO Error: x");
    assert_eq!(MatchMakerError::RoundLimitReached.message(), "Round counter at its maximum");
    assert_eq!(command_outcome(Some(0), lines(&["a"])), Ok(lines(&["a"])));
    assert_eq!(command_outcome(Some(1), lines(&["a"])), Err(MatchMakerError::ProcessFailed(Some(1))));
    assert_eq!(command_outcome(None, Vec::new()), Err(MatchMakerError::ProcessFailed(None)));
}

#[test]
fn competition_window_includes_both_ends() {
    let c = competition(0, 1);
    assert!(c.is_running(0));
    assert!(c.is_running(10));
    assert!(!c.is_running(11));
    assert!(!c.is_running(-1));
}

#[test]
fn new_team_starts_empty_at_default_rating() {
    let mut t = Team::from_new(
        NewTeam { name: "n".to_string(), owner: "o".to_string(), competition_id: "c1".to_string() },
        5,
    );
    assert_eq!(t.elo, DEFAULT_ELO);
    assert_eq!(t.elo, 1000);
    assert!(t.bot1.is_empty() && t.bot2.is_empty() && t.partner.is_empty());
    t.place_uploaded_bot(&"x".to_string());
    assert_eq!((t.bot1.as_str(), t.bot2.as_str()), ("x", "x"));
    t.set_bot(BotSelector::Second, "y".to_string());
    t.place_uploaded_bot(&"z".to_string());
    assert_eq!((t.bot1.as_str(), t.bot2.as_str()), ("x", "y"));
    assert_eq!(Role::from_stored(&"ADMIN".to_string()), Role::Admin);
    assert_eq!(Role::from_stored(&"admin".to_string()), Role::Student);
    assert_eq!(Role::Student.stored_name(), "STUDENT");
}

#[test]
fn recorded_compilation_error_is_empty_after_success() {
    assert_eq!(recorded_error(&Ok(())), "");
    assert_eq!(recorded_error(&Err(MatchMakerError::NoSourceFiles)), "No Java files found");
}

#[test]
fn round_counter_at_maximum_fails_the_round() {
    let (mut r, _) = run_2v2_round("c1".to_string());
    r.step(RoundEvent::Competition(competition(i32::MAX, 1)));
    r.step(RoundEvent::Teams(Vec::new()));
    r.step(RoundEvent::Compiled(Vec::new()));
    assert!(matches!(r.step(RoundEvent::Done), RoundAction::CleanUp));
    match r.step(RoundEvent::Done) {
        RoundAction::Finish(Err(e)) => assert_eq!(e, MatchMakerError::RoundLimitReached),
        other => panic!("{:?}", other),
    }
}

#[test]
fn pairing_leaves_at_most_one_team_short() {
    for _ in 0..50 {
        let p = pair_indices(5, 3);
        assert!(!p.is_empty());
        let mut played = vec![0; 5];
        for (a, b) in p.iter() {
            played[*a] += 1;
            played[*b] += 1;
        }
        assert!(played.iter().filter(|c| **c < 3).count() <= 1);
    }
}
