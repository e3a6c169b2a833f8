use vstd::prelude::*;

use crate::text::{parse_count, parse_u32_text, trimmed};

verus! {

/// What a configuration holds: the site and the admin of the election.
#[verifier::ext_equal]
pub struct ConfigModel {
    pub election_site: Seq<char>,
    pub election_admin: Seq<char>,
}

/// The local configuration of a polling station.
#[derive(Debug)]
pub struct Config {
    election_site: String,
    election_admin: String,
}

impl View for Config {
    type V = ConfigModel;

    closed spec fn view(&self) -> ConfigModel {
        ConfigModel { election_site: self.election_site@, election_admin: self.election_admin@ }
    }
}

impl Config {
    /// Builds a configuration from its two fields.
    pub fn new(election_site: String, election_admin: String) -> (res: Config)
        ensures
            res@ == (ConfigModel { election_site: election_site@, election_admin: election_admin@ }),
    {
        Config { election_site, election_admin }
    }

    /// The name of the election site.
    pub fn get_election_site(&self) -> (res: String)
        ensures
            res@ == self@.election_site,
    {
        self.election_site.clone()
    }

    /// The name of the election admin.
    pub fn get_election_admin(&self) -> (res: String)
        ensures
            res@ == self@.election_admin,
    {
        self.election_admin.clone()
    }
}


/// A party's display colour as red, green and blue components.
#[derive(Debug)]
pub struct Color(u8, u8, u8);

impl View for Color {
    type V = (u8, u8, u8);

    closed spec fn view(&self) -> (u8, u8, u8) {
        (self.0, self.1, self.2)
    }
}

impl Color {
    /// Builds a colour from its red, green and blue components.
    pub fn new(red: u8, green: u8, blue: u8) -> (res: Color)
        ensures
            res@ == (red, green, blue),
    {
        Color(red, green, blue)
    }

    /// The red, green and blue components.
    pub fn rgb(&self) -> (res: (u8, u8, u8))
        ensures
            res == self@,
    {
        (self.0, self.1, self.2)
    }
}

impl Clone for Color {
    fn clone(&self) -> (res: Self)
        ensures
            res@ == self@,
    {
        Color(self.0, self.1, self.2)
    }
}

/// The view of a list of names as a sequence of character sequences.
pub open spec fn names_view(names: Seq<String>) -> Seq<Seq<char>> {
    names.map_values(|s: String| s@)
}

/// What a party entry of a vote holds.
#[verifier::ext_equal]
pub struct PartyModel {
    pub name: Seq<char>,
    pub long_name: Seq<char>,
    pub color: (u8, u8, u8),
    pub candidates: Seq<Seq<char>>,
    pub votes: u32,
}

/// One party on the ballot, with the votes counted for it.
#[derive(Debug)]
pub struct Party {
    name: String,
    long_name: String,
    color: Color,
    candidates: Vec<String>,
    votes: u32,
}

impl View for Party {
    type V = PartyModel;

    closed spec fn view(&self) -> PartyModel {
        PartyModel {
            name: self.name@,
            long_name: self.long_name@,
            color: self.color@,
            candidates: names_view(self.candidates@),
            votes: self.votes,
        }
    }
}

/// A copy of a list of names holds the same names.
fn clone_names(names: &Vec<String>) -> (res: Vec<String>)
    ensures
        names_view(res@) == names_view(names@),
{
    let res = names.clone();
    assert(names_view(res@) =~= names_view(names@));
    res
}

impl Clone for Party {
    fn clone(&self) -> (res: Self)
        ensures
            res@ == self@,
    {
        Party {
            name: self.name.clone(),
            long_name: self.long_name.clone(),
            color: self.color.clone(),
            candidates: clone_names(&self.candidates),
            votes: self.votes,
        }
    }
}

impl Party {
    /// Builds a party entry.
    pub fn new(name: String, long_name: String, color: Color, candidates: Vec<String>, votes: u32) -> (res: Party)
        ensures
            res@ == (PartyModel {
                name: name@,
                long_name: long_name@,
                color: color@,
                candidates: names_view(candidates@),
                votes: votes,
            }),
    {
        Party { name, long_name, color, candidates, votes }
    }

    /// Sets the number of votes counted for the party; nothing else changes.
    pub fn set_votes(&mut self, votes: u32)
        ensures
            final(self)@ == (PartyModel { votes: votes, ..old(self)@ }),
    {
        self.votes = votes;
    }

    /// The party's short name.
    pub fn get_name(&self) -> (res: String)
        ensures
            res@ == self@.name,
    {
        self.name.clone()
    }

    /// The party's long name.
    pub fn get_long_name(&self) -> (res: String)
        ensures
            res@ == self@.long_name,
    {
        self.long_name.clone()
    }

    /// The party's colour.
    pub fn get_color(&self) -> (res: Color)
        ensures
            res@ == self@.color,
    {
        self.color.clone()
    }

    /// The party's candidates, in ballot order.
    pub fn get_candidates(&self) -> (res: Vec<String>)
        ensures
            names_view(res@) == self@.candidates,
    {
        clone_names(&self.candidates)
    }

    /// The number of votes counted for the party.
    pub fn get_votes(&self) -> (res: u32)
        ensures
            res == self@.votes,
    {
        self.votes
    }
}


/// The view of a list of parties as a sequence of party models.
pub open spec fn parties_view(parties: Seq<Party>) -> Seq<PartyModel> {
    parties.map_values(|p: Party| p@)
}

/// What a vote record holds.
#[verifier::ext_equal]
pub struct VoteModel {
    pub election_site: Seq<char>,
    pub election_admin: Seq<char>,
    pub datetime: Seq<char>,
    pub parties: Seq<PartyModel>,
}

/// The record of one polling station's count: where and by whom it was
/// taken, when, and the votes of each party.
#[derive(Debug)]
pub struct Vote {
    election_site: String,
    election_admin: String,
    datetime: String,
    parties: Vec<Party>,
}

impl View for Vote {
    type V = VoteModel;

    closed spec fn view(&self) -> VoteModel {
        VoteModel {
            election_site: self.election_site@,
            election_admin: self.election_admin@,
            datetime: self.datetime@,
            parties: parties_view(self.parties@),
        }
    }
}

/// `v` with the votes of the party at `index` set to `n`.
pub open spec fn with_party_votes(v: VoteModel, index: int, n: u32) -> VoteModel {
    VoteModel {
        parties: v.parties.update(index, PartyModel { votes: n, ..v.parties[index] }),
        ..v
    }
}

/// `v` after the counts `counts` were recorded, one per party, in ballot
/// order from the first party.
pub open spec fn with_counts(v: VoteModel, counts: Seq<u32>) -> VoteModel
    decreases counts.len(),
{
    if counts.len() == 0 {
        v
    } else {
        with_party_votes(with_counts(v, counts.drop_last()), counts.len() - 1, counts.last())
    }
}

/// Recording counts one party after another, in ballot order, leaves each
/// of those parties with its own count and every other party, and the
/// site, admin and time of the vote, as they were.
pub proof fn law_counts_in_ballot_order(v: VoteModel, counts: Seq<u32>)
    requires
        counts.len() <= v.parties.len(),
    ensures
        with_counts(v, counts) == (VoteModel {
            parties: Seq::new(
                v.parties.len(),
                |i: int|
                    if i < counts.len() {
                        PartyModel { votes: counts[i], ..v.parties[i] }
                    } else {
                        v.parties[i]
                    },
            ),
            ..v
        }),
    decreases counts.len(),
{
    if counts.len() > 0 {
        law_counts_in_ballot_order(v, counts.drop_last());
        let w = with_counts(v, counts);
        assert(w.parties =~= Seq::new(
            v.parties.len(),
            |i: int|
                if i < counts.len() {
                    PartyModel { votes: counts[i], ..v.parties[i] }
                } else {
                    v.parties[i]
                },
        ));
    }
}

/// A copy of a list of parties holds equal parties.
fn clone_parties(parties: &Vec<Party>) -> (res: Vec<Party>)
    ensures
        parties_view(res@) == parties_view(parties@),
{
    let res = parties.clone();
    assert(parties_view(res@) =~= parties_view(parties@));
    res
}

impl Clone for Vote {
    fn clone(&self) -> (res: Self)
        ensures
            res@ == self@,
    {
        Vote {
            election_site: self.election_site.clone(),
            election_admin: self.election_admin.clone(),
            datetime: self.datetime.clone(),
            parties: clone_parties(&self.parties),
        }
    }
}

impl Vote {
    /// Builds a vote record.
    pub fn new(election_site: String, election_admin: String, datetime: String, parties: Vec<Party>) -> (res: Vote)
        ensures
            res@ == (VoteModel {
                election_site: election_site@,
                election_admin: election_admin@,
                datetime: datetime@,
                parties: parties_view(parties@),
            }),
    {
        Vote { election_site, election_admin, datetime, parties }
    }

    /// The name of the election site.
    pub fn get_election_site(&self) -> (res: String)
        ensures
            res@ == self@.election_site,
    {
        self.election_site.clone()
    }

    /// The name of the election admin.
    pub fn get_election_admin(&self) -> (res: String)
        ensures
            res@ == self@.election_admin,
    {
        self.election_admin.clone()
    }

    /// The time at which the count was recorded.
    pub fn get_datetime(&self) -> (res: String)
        ensures
            res@ == self@.datetime,
    {
        self.datetime.clone()
    }

    /// A copy of the parties, in ballot order.
    pub fn get_parties(&self) -> (res: Vec<Party>)
        ensures
            parties_view(res@) == self@.parties,
    {
        clone_parties(&self.parties)
    }

    /// The parties, for editing in place; what is written through the
    /// returned reference becomes the vote's parties, and nothing else changes.
    pub fn get_mut_parties(&mut self) -> (res: &mut Vec<Party>)
        ensures
            parties_view(res@) == old(self)@.parties,
            final(self)@ == (VoteModel { parties: parties_view(final(res)@), ..old(self)@ }),
    {
        &mut self.parties
    }

    /// Sets the name of the election site; nothing else changes.
    pub fn set_election_site(&mut self, name: String)
        ensures
            final(self)@ == (VoteModel { election_site: name@, ..old(self)@ }),
    {
        self.election_site = name;
    }

    /// Sets the name of the election admin; nothing else changes.
    pub fn set_election_admin(&mut self, name: String)
        ensures
            final(self)@ == (VoteModel { election_admin: name@, ..old(self)@ }),
    {
        self.election_admin = name;
    }

    /// Sets the time of the count to `datetime`; nothing else changes.
    pub fn set_datetime_to(&mut self, datetime: String)
        ensures
            final(self)@ == (VoteModel { datetime: datetime@, ..old(self)@ }),
    {
        self.datetime = datetime;
    }

    /// The number of parties on the ballot.
    pub fn party_count(&self) -> (res: usize)
        ensures
            res == self@.parties.len(),
    {
        self.parties.len()
    }

    /// The name to show when asking for the count of the party at `index`;
    /// `None` once every party has been asked for.
    pub fn tally_prompt(&self, index: usize) -> (res: Option<String>)
        ensures
            match res {
                Some(name) => index < self@.parties.len() && name@ == self@.parties[index as int].name,
                None => index >= self@.parties.len(),
            },
    {
        if index < self.parties.len() {
            Some(self.parties[index].get_name())
        } else {
            None
        }
    }

    /// Records the count typed on `line` for the party at `index`: the line
    /// is read as `line.trim().parse::<u32>()` reads it. When it reads as a
    /// count, that party's votes become the count and nothing else changes;
    /// when it does not, nothing changes and `None` comes back.
    pub fn record_count_line(&mut self, index: usize, line: &str) -> (res: Option<u32>)
        requires
            index < old(self)@.parties.len(),
        ensures
            res == parse_u32_text(trimmed(line@)),
            match res {
                Some(n) => final(self)@ == with_party_votes(old(self)@, index as int, n),
                None => final(self)@ == old(self)@,
            },
    {
        let count = parse_count(line);
        match count {
            Some(n) => {
                self.parties[index].set_votes(n);
                assert(parties_view(self.parties@) =~= old(self)@.parties.update(
                    index as int,
                    PartyModel { votes: n, ..old(self)@.parties[index as int] },
                ));
            },
            None => {},
        }
        count
    }
}

} // verus!
