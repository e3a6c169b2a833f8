use vote42::datatypes::{Color, Config, Party, Vote};

fn party(name: &str, votes: u32) -> Party {
    Party::new(
        name.to_string(),
        format!("{} long", name),
        Color::new(1, 2, 3),
        vec!["Ann".to_string(), "Bob".to_string()],
        votes,
    )
}

fn sample_vote() -> Vote {
    Vote::new(
        "Site".to_string(),
        "Admin".to_string(),
        String::new(),
        vec![party("A", 0), party("B", 0), party("C", 0)],
    )
}

#[test]
fn config_getters_give_fields() {
    let c = Config::new("Town Hall".to_string(), "Jane".to_string());
    assert_eq!(c.get_election_site(), "Town Hall");
    assert_eq!(c.get_election_admin(), "Jane");
}

#[test]
fn color_keeps_components() {
    let c = Color::new(10, 20, 30);
    assert_eq!(c.rgb(), (10, 20, 30));
    assert_eq!(c.clone().rgb(), (10, 20, 30));
}

#[test]
fn party_getters_and_set_votes() {
    let mut p = party("Green", 5);
    assert_eq!(p.get_name(), "Green");
    assert_eq!(p.get_long_name(), "Green long");
    assert_eq!(p.get_color().rgb(), (1, 2, 3));
    assert_eq!(p.get_candidates(), vec!["Ann".to_string(), "Bob".to_string()]);
    assert_eq!(p.get_votes(), 5);
    p.set_votes(17);
    assert_eq!(p.get_votes(), 17);
    assert_eq!(p.get_name(), "Green");
}

#[test]
fn party_clone_is_independent() {
    let p = party("Red", 3);
    let mut q = p.clone();
    q.set_votes(9);
    assert_eq!(p.get_votes(), 3);
    assert_eq!(q.get_votes(), 9);
    assert_eq!(q.get_name(), "Red");
    assert_eq!(q.get_candidates(), p.get_candidates());
}

#[test]
fn vote_setters_change_one_field() {
    let mut v = sample_vote();
    v.set_election_site("North".to_string());
    assert_eq!(v.get_election_site(), "North");
    assert_eq!(v.get_election_admin(), "Admin");
    v.set_election_admin("Max".to_string());
    assert_eq!(v.get_election_admin(), "Max");
    assert_eq!(v.get_election_site(), "North");
    v.set_datetime_to("2024-05-01T10:00:00+02:00".to_string());
    assert_eq!(v.get_datetime(), "2024-05-01T10:00:00+02:00");
    assert_eq!(v.get_parties().len(), 3);
}

#[test]
fn vote_takes_metadata_from_config() {
    let config = Config::new("School 7".to_string(), "Lee".to_string());
    let mut v = sample_vote();
    v.set_election_site(config.get_election_site());
    v.set_election_admin(config.get_election_admin());
    assert_eq!(v.get_election_site(), "School 7");
    assert_eq!(v.get_election_admin(), "Lee");
}

#[test]
fn set_datetime_to_keeps_the_rest() {
    let mut v = sample_vote();
    let now = chrono::Local::now().to_rfc3339();
    v.set_datetime_to(now.clone());
    assert_eq!(v.get_datetime(), now);
    assert!(chrono::DateTime::parse_from_rfc3339(&v.get_datetime()).is_ok());
    assert_eq!(v.get_election_site(), "Site");
    assert_eq!(v.get_election_admin(), "Admin");
    assert_eq!(v.get_parties().len(), 3);
}

#[test]
fn get_mut_parties_writes_through() {
    let mut v = sample_vote();
    v.get_mut_parties()[1].set_votes(44);
    v.get_mut_parties().push(party("D", 1));
    let ps = v.get_parties();
    assert_eq!(ps.len(), 4);
    assert_eq!(ps[1].get_votes(), 44);
    assert_eq!(ps[3].get_name(), "D");
    assert_eq!(v.get_election_site(), "Site");
}

#[test]
fn vote_clone_is_independent() {
    let v = sample_vote();
    let mut w = v.clone();
    w.set_election_site("Other".to_string());
    w.get_mut_parties()[0].set_votes(8);
    assert_eq!(v.get_election_site(), "Site");
    assert_eq!(v.get_parties()[0].get_votes(), 0);
    assert_eq!(w.get_parties()[0].get_votes(), 8);
}

#[test]
fn tally_prompts_each_party_in_order() {
    let v = sample_vote();
    assert_eq!(v.party_count(), 3);
    assert_eq!(v.tally_prompt(0), Some("A".to_string()));
    assert_eq!(v.tally_prompt(2), Some("C".to_string()));
    assert_eq!(v.tally_prompt(3), None);
}

#[test]
fn tally_records_counts_in_ballot_order() {
    let mut v = sample_vote();
    assert_eq!(v.record_count_line(0, "12\n"), Some(12));
    assert_eq!(v.record_count_line(1, "  7 \r\n"), Some(7));
    assert_eq!(v.record_count_line(2, "+0"), Some(0));
    let ps = v.get_parties();
    let counts: Vec<u32> = ps.iter().map(|p| p.get_votes()).collect();
    assert_eq!(counts, vec![12, 7, 0]);
    let names: Vec<String> = ps.iter().map(|p| p.get_name()).collect();
    assert_eq!(names, vec!["A".to_string(), "B".to_string(), "C".to_string()]);
    assert_eq!(v.get_election_site(), "Site");
}

#[test]
fn tally_refuses_bad_count_and_changes_nothing() {
    let mut v = sample_vote();
    v.record_count_line(0, "5");
    for bad in ["", "\n", "-1", "abc", "4294967296", "1 2", "+", "++1", "0x10", "1.5"] {
        assert_eq!(v.record_count_line(0, bad), None, "{:?}", bad);
        assert_eq!(v.get_parties()[0].get_votes(), 5);
    }
}
