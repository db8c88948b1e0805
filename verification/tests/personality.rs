use curling_game::components::Team;
use curling_game::personality::{
    generate_player_personalities, team_from_draws, AimSkill, PlayerPersonalities,
    PlayerPersonality, PlayerPosition, WeightSkill,
};

#[test]
fn personality_new_and_score() {
    let p = PlayerPersonality::new(PlayerPosition::Third, WeightSkill::Good, AimSkill::Poor);
    assert_eq!(p.position, PlayerPosition::Third);
    assert_eq!(p.total_score(), 2);
    let q = PlayerPersonality::new(PlayerPosition::Skip, WeightSkill::Good, AimSkill::Good);
    assert_eq!(q.total_score(), 4);
}

#[test]
fn personality_description() {
    let p = PlayerPersonality::new(PlayerPosition::Lead, WeightSkill::TendsHeavy, AimSkill::TendsWide);
    assert_eq!(p.description(), "Lead: Tends heavy, Tends wide");
}

#[test]
fn default_roster_has_good_skip() {
    let roster = PlayerPersonalities::default();
    assert_eq!(roster.team1[3].position, PlayerPosition::Skip);
    assert_eq!(roster.team1[3].weight_skill, WeightSkill::Good);
    assert_eq!(roster.team2[0].aim_skill, AimSkill::Average);
    assert_eq!(roster.team2[2].position, PlayerPosition::Third);
}

#[test]
fn current_thrower_two_stones_each() {
    let mut roster = PlayerPersonalities::default();
    roster.team2[1].aim_skill = AimSkill::Poor;
    // Team 1 throws first: its stones are shots 0, 2, 4, ...
    assert_eq!(roster.current_thrower(0, Team::One).position, PlayerPosition::Lead);
    assert_eq!(roster.current_thrower(2, Team::One).position, PlayerPosition::Lead);
    assert_eq!(roster.current_thrower(4, Team::One).position, PlayerPosition::Second);
    assert_eq!(roster.current_thrower(14, Team::One).position, PlayerPosition::Skip);
    // Team 2 throws the odd shots.
    assert_eq!(roster.current_thrower(5, Team::One).aim_skill, AimSkill::Poor);
    assert_eq!(roster.current_thrower(4, Team::Two).aim_skill, AimSkill::Poor);
    assert_eq!(roster.current_thrower(15, Team::One).position, PlayerPosition::Skip);
    assert_eq!(roster.current_thrower(200, Team::Two).position, PlayerPosition::Skip);
}

#[test]
fn team_from_draws_sorts_weakest_first_stably() {
    let team = team_from_draws([
        (WeightSkill::Good, AimSkill::Good),
        (WeightSkill::TendsLight, AimSkill::Average),
        (WeightSkill::Poor, AimSkill::Poor),
        (WeightSkill::Average, AimSkill::TendsNarrow),
    ]);
    let positions: Vec<PlayerPosition> = team.iter().map(|p| p.position).collect();
    assert_eq!(
        positions,
        vec![PlayerPosition::Lead, PlayerPosition::Second, PlayerPosition::Third, PlayerPosition::Skip]
    );
    assert_eq!(team[0].weight_skill, WeightSkill::Poor);
    assert_eq!(team[1].weight_skill, WeightSkill::TendsLight);
    assert_eq!(team[2].weight_skill, WeightSkill::Average);
    assert_eq!(team[3].aim_skill, AimSkill::Good);
}

#[test]
fn generated_teams_are_sorted() {
    for _ in 0..20 {
        let roster = generate_player_personalities();
        for team in [roster.team1, roster.team2] {
            assert_eq!(team[0].position, PlayerPosition::Lead);
            assert_eq!(team[3].position, PlayerPosition::Skip);
            for k in 0..3 {
                assert!(team[k].total_score() <= team[k + 1].total_score());
            }
        }
    }
}

#[test]
fn skill_names() {
    assert_eq!(PlayerPosition::Second.name(), "Second");
    assert_eq!(WeightSkill::Average.name(), "Average weight");
    assert_eq!(AimSkill::TendsNarrow.name(), "Tends narrow");
    assert_eq!(WeightSkill::Poor.score(), 0);
    assert_eq!(AimSkill::Good.score(), 2);
}
