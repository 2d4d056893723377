//! The update of the players that the database holds.
use std::collections::VecDeque;
use vstd::prelude::*;

verus! {

/// Where all players are listed.
pub const PLAYERS_URL: &'static str = "https://api.sleeper.app/v1/players/nfl";

/// Inserts a player, or replaces the player of the same id.
pub const UPSERT_PLAYER: &'static str = "
insert into
    players(id, first_name, last_name, active, position, team, status, injury_status)
values
    ($1, $2, $3, $4, $5, $6, $7, $8)
on conflict (id)
do update set
    first_name = excluded.first_name,
    last_name = excluded.last_name,
    active = excluded.active,
    position = excluded.position,
    team = excluded.team,
    status = excluded.status,
    injury_status = excluded.injury_status
";

/// A player, as the list has it.
#[derive(Debug, PartialEq, Eq)]
pub struct SleeperPlayer {
    pub player_id: String,
    pub first_name: String,
    pub last_name: String,
    pub active: bool,
    pub position: Option<String>,
    pub team: Option<String>,
    pub status: Option<String>,
    pub injury_status: Option<String>,
}

/// A value that a statement is executed with.
#[derive(Debug, PartialEq, Eq)]
pub enum SqlValue {
    Text(String),
    Flag(bool),
    OptionalText(Option<String>),
}

/// The positions whose players are kept.
pub open spec fn kept_positions() -> Set<Seq<char>> {
    set!["QB"@, "RB"@, "WR"@, "TE"@, "K"@, "DEF"@]
}

/// Whether a player is kept: one that has a position, and one of those that are.
pub open spec fn is_kept(player: SleeperPlayer) -> bool {
    match player.position {
        Some(position) => kept_positions().contains(position@),
        None => false,
    }
}

/// What the statement is executed with for a player, in the order of its columns.
pub open spec fn upsert_values(player: SleeperPlayer) -> Seq<SqlValue> {
    seq![
        SqlValue::Text(player.player_id),
        SqlValue::Text(player.first_name),
        SqlValue::Text(player.last_name),
        SqlValue::Flag(player.active),
        SqlValue::OptionalText(player.position),
        SqlValue::OptionalText(player.team),
        SqlValue::OptionalText(player.status),
        SqlValue::OptionalText(player.injury_status),
    ]
}

impl SleeperPlayer {
    /// Whether the player is kept.
    pub fn is_kept(&self) -> (kept: bool)
        ensures
            kept == is_kept(*self),
    {
        match &self.position {
            Some(position) => {
                *position == "QB".to_owned() || *position == "RB".to_owned() || *position
                    == "WR".to_owned() || *position == "TE".to_owned() || *position
                    == "K".to_owned() || *position == "DEF".to_owned()
            },
            None => false,
        }
    }

    /// What to execute the statement with.
    pub fn into_values(self) -> (values: Vec<SqlValue>)
        ensures
            values@ == upsert_values(self),
    {
        let values = vec![
            SqlValue::Text(self.player_id),
            SqlValue::Text(self.first_name),
            SqlValue::Text(self.last_name),
            SqlValue::Flag(self.active),
            SqlValue::OptionalText(self.position),
            SqlValue::OptionalText(self.team),
            SqlValue::OptionalText(self.status),
            SqlValue::OptionalText(self.injury_status),
        ];
        assert(values@ =~= upsert_values(self));
        values
    }
}

/// What to do next for the update.
#[derive(Debug, PartialEq, Eq)]
pub enum UpdateStep<E> {
    /// Execute the statement with the values.
    Execute(Vec<SqlValue>),
    /// Stop: everything is written, or the statement that was executed last has failed.
    Done(Result<(), E>),
}

/// What an [`UpdateStep`] means.
pub enum UpdateStepView<E> {
    Execute(Seq<SqlValue>),
    Done(Result<(), E>),
}

impl<E> View for UpdateStep<E> {
    type V = UpdateStepView<E>;

    open spec fn view(&self) -> UpdateStepView<E> {
        match self {
            UpdateStep::Execute(values) => UpdateStepView::Execute(values@),
            UpdateStep::Done(result) => UpdateStepView::Done(*result),
        }
    }
}

/// What is done next, and who is pending then, where `pending` are and the statement that was
/// executed last came out as given: nothing is executed after a failure.
pub open spec fn update_step<E>(pending: Seq<SleeperPlayer>, executed: Result<(), E>) -> (
    UpdateStepView<E>,
    Seq<SleeperPlayer>,
) {
    match executed {
        Err(error) => (UpdateStepView::Done(Err(error)), pending),
        Ok(_) => if pending.len() == 0 {
            (UpdateStepView::Done(Ok(())), pending)
        } else {
            (UpdateStepView::Execute(upsert_values(pending[0])), pending.drop_first())
        },
    }
}

/// The players that are still to be written to the database.
#[derive(Debug)]
pub struct PlayerUpdate {
    pending: VecDeque<SleeperPlayer>,
}

impl View for PlayerUpdate {
    type V = Seq<SleeperPlayer>;

    closed spec fn view(&self) -> Seq<SleeperPlayer> {
        self.pending@
    }
}

impl PlayerUpdate {
    /// An update with those of the players that are kept, in their order.
    pub fn new(players: Vec<SleeperPlayer>) -> (update: PlayerUpdate)
        ensures
            update@ == players@.filter(|player: SleeperPlayer| is_kept(player)),
    {
        let ghost all = players@;
        let ghost kept = |player: SleeperPlayer| is_kept(player);
        let mut pending: VecDeque<SleeperPlayer> = VecDeque::new();
        proof {
            reveal(Seq::filter);
            assert(pending@ =~= all.take(0).filter(kept));
        }
        for player in iter: players.into_iter()
            invariant
                iter.seq() == all,
                kept == (|player: SleeperPlayer| is_kept(player)),
                pending@ == all.take(iter.index()).filter(kept),
        {
            proof {
                reveal(Seq::filter);
                assert(all.take(iter.index() + 1).drop_last() =~= all.take(iter.index()));
            }
            if player.is_kept() {
                pending.push_back(player);
            }
        }
        assert(all.take(all.len() as int) =~= all);
        PlayerUpdate { pending }
    }

    /// What to do next, where the statement that was executed last came out as given. Before the
    /// first statement, that is `Ok`.
    pub fn step<E>(&mut self, executed: Result<(), E>) -> (step: UpdateStep<E>)
        ensures
            step@ == update_step(old(self)@, executed).0,
            final(self)@ == update_step(old(self)@, executed).1,
    {
        match executed {
            Err(error) => UpdateStep::Done(Err(error)),
            Ok(_) => match self.pending.pop_front() {
                Some(player) => {
                    assert(self@ =~= old(self)@.drop_first());
                    UpdateStep::Execute(player.into_values())
                },
                None => UpdateStep::Done(Ok(())),
            },
        }
    }
}

/// The values that the statement is executed with, one execution after the other, and what the
/// update returns, where `pending` are, the statement that was executed last came out as given and
/// the next ones will come out as `outcomes` has it.
pub open spec fn update_run<E>(
    pending: Seq<SleeperPlayer>,
    executed: Result<(), E>,
    outcomes: Seq<Result<(), E>>,
) -> (Seq<Seq<SqlValue>>, Result<(), E>)
    decreases pending.len(),
{
    match executed {
        Ok(_) if pending.len() > 0 => {
            let rest = update_run(
                update_step(pending, executed).1,
                outcomes[0],
                outcomes.drop_first(),
            );
            (seq![update_step(pending, executed).0->Execute_0] + rest.0, rest.1)
        },
        _ => (Seq::empty(), update_step(pending, executed).0->Done_0),
    }
}

/// Where no statement fails, it is executed once for each player, in their order.
pub proof fn update_writes_all<E>(players: Seq<SleeperPlayer>, outcomes: Seq<Result<(), E>>)
    requires
        players.len() <= outcomes.len(),
        forall|i: int| 0 <= i < players.len() ==> (#[trigger] outcomes[i]) is Ok,
    ensures
        update_run(players, Ok(()), outcomes) == (
            players.map_values(|player: SleeperPlayer| upsert_values(player)),
            Ok::<(), E>(()),
        ),
    decreases players.len(),
{
    let values = |player: SleeperPlayer| upsert_values(player);
    if players.len() > 0 {
        let rest = players.drop_first();
        assert(outcomes[0] is Ok);
        assert(outcomes[0]->Ok_0 == ());
        assert forall|i: int| 0 <= i < rest.len() implies (
        #[trigger] outcomes.drop_first()[i]) is Ok by {
            assert(outcomes[i + 1] is Ok);
        }
        update_writes_all(rest, outcomes.drop_first());
        assert(players.map_values(values) =~= seq![upsert_values(players[0])] + rest.map_values(
            values,
        ));
    } else {
        assert(players.map_values(values) =~= Seq::empty());
    }
}

/// Where a statement fails, the update returns its error, and the statement is executed for no
/// player behind that one.
pub proof fn update_stops_at_the_first_failure<E>(
    players: Seq<SleeperPlayer>,
    outcomes: Seq<Result<(), E>>,
    failed: int,
)
    requires
        0 <= failed < players.len() <= outcomes.len(),
        forall|i: int| 0 <= i < failed ==> (#[trigger] outcomes[i]) is Ok,
        outcomes[failed] is Err,
    ensures
        update_run(players, Ok(()), outcomes) == (
            players.take(failed + 1).map_values(|player: SleeperPlayer| upsert_values(player)),
            outcomes[failed],
        ),
    decreases players.len(),
{
    let values = |player: SleeperPlayer| upsert_values(player);
    let rest = players.drop_first();
    let later = outcomes.drop_first();
    if failed == 0 {
        assert(update_run(rest, outcomes[0], later).0 =~= Seq::empty());
        assert(players.take(1).map_values(values) =~= seq![upsert_values(players[0])]);
    } else {
        assert(outcomes[0] is Ok);
        assert(outcomes[0]->Ok_0 == ());
        assert forall|i: int| 0 <= i < failed - 1 implies (#[trigger] later[i]) is Ok by {
            assert(outcomes[i + 1] is Ok);
        }
        update_stops_at_the_first_failure(rest, later, failed - 1);
        assert(players.take(failed + 1).map_values(values) =~= seq![upsert_values(players[0])]
            + rest.take(failed).map_values(values));
    }
}

/// A player is written to the database exactly if the list has it and it is kept.
pub proof fn update_has_exactly_the_kept(players: Seq<SleeperPlayer>, player: SleeperPlayer)
    ensures
        players.filter(|player: SleeperPlayer| is_kept(player)).contains(player)
            <==> players.contains(player) && is_kept(player),
{
    lemma_filter_count(players, |player: SleeperPlayer| is_kept(player), player);
    let kept = players.filter(|player: SleeperPlayer| is_kept(player));
    kept.to_multiset_ensures();
    players.to_multiset_ensures();
}

proof fn lemma_filter_count(
    players: Seq<SleeperPlayer>,
    kept: spec_fn(SleeperPlayer) -> bool,
    player: SleeperPlayer,
)
    ensures
        players.filter(kept).to_multiset().count(player) == if kept(player) {
            players.to_multiset().count(player)
        } else {
            0
        },
    decreases players.len(),
{
    broadcast use vstd::seq_lib::group_to_multiset_ensures;

    reveal(Seq::filter);
    if players.len() > 0 {
        let front = players.drop_last();
        lemma_filter_count(front, kept, player);
        assert(players =~= front.push(players.last()));
        assert(players.to_multiset() == front.to_multiset().insert(players.last()));
        if kept(players.last()) {
            assert(players.filter(kept) == front.filter(kept).push(players.last()));
        } else {
            assert(players.filter(kept) == front.filter(kept));
        }
    }
}

/// In whichever order the list of players is walked, the same players are written, each as many
/// times.
pub proof fn update_does_not_depend_on_order(a: Seq<SleeperPlayer>, b: Seq<SleeperPlayer>)
    requires
        a.to_multiset() == b.to_multiset(),
    ensures
        a.filter(|player: SleeperPlayer| is_kept(player)).to_multiset() == b.filter(
            |player: SleeperPlayer| is_kept(player),
        ).to_multiset(),
{
    let kept = |player: SleeperPlayer| is_kept(player);
    assert forall|player: SleeperPlayer|
        a.filter(kept).to_multiset().count(player) == b.filter(kept).to_multiset().count(
            player,
        ) by {
        lemma_filter_count(a, kept, player);
        lemma_filter_count(b, kept, player);
    }
    assert(a.filter(kept).to_multiset() =~= b.filter(kept).to_multiset());
}

/// The position of a player is one of those that are kept exactly if the player is.
pub proof fn player_is_kept_by_position(player: &SleeperPlayer, kept: bool)
    requires
        call_ensures(SleeperPlayer::is_kept, (player,), kept),
    ensures
        kept <==> (player.position matches Some(position) && (position@ == "QB"@ || position@
            == "RB"@ || position@ == "WR"@ || position@ == "TE"@ || position@ == "K"@ || position@
            == "DEF"@)),
{
}

/// Each value that the statement is executed with is the player's own field of that column.
pub proof fn values_are_the_fields(player: SleeperPlayer, values: Vec<SqlValue>)
    requires
        call_ensures(SleeperPlayer::into_values, (player,), values),
    ensures
        values@.len() == 8,
        values@[0] matches SqlValue::Text(id) && id == player.player_id,
        values@[1] matches SqlValue::Text(first_name) && first_name == player.first_name,
        values@[2] matches SqlValue::Text(last_name) && last_name == player.last_name,
        values@[3] matches SqlValue::Flag(active) && active == player.active,
        values@[4] matches SqlValue::OptionalText(position) && position == player.position,
        values@[5] matches SqlValue::OptionalText(team) && team == player.team,
        values@[6] matches SqlValue::OptionalText(status) && status == player.status,
        values@[7] matches SqlValue::OptionalText(injury) && injury == player.injury_status,
{
}

/// Players that are written with the same values are the same player.
pub proof fn values_tell_players_apart(
    a: SleeperPlayer,
    b: SleeperPlayer,
    values: (Vec<SqlValue>, Vec<SqlValue>),
)
    requires
        call_ensures(SleeperPlayer::into_values, (a,), values.0),
        call_ensures(SleeperPlayer::into_values, (b,), values.1),
        values.0@ == values.1@,
    ensures
        a == b,
{
    values_are_the_fields(a, values.0);
    values_are_the_fields(b, values.1);
}

/// What a player of the update is written with are the player's own fields, in the order of the
/// columns. So a list of values tells which player it was made of.
pub proof fn written_values_are_the_fields(a: SleeperPlayer, b: SleeperPlayer)
    ensures
        upsert_values(a).len() == 8,
        upsert_values(a)[0]->Text_0 == a.player_id,
        upsert_values(a)[1]->Text_0 == a.first_name,
        upsert_values(a)[2]->Text_0 == a.last_name,
        upsert_values(a)[3]->Flag_0 == a.active,
        upsert_values(a)[4]->OptionalText_0 == a.position,
        upsert_values(a)[5]->OptionalText_0 == a.team,
        upsert_values(a)[6]->OptionalText_0 == a.status,
        upsert_values(a)[7]->OptionalText_0 == a.injury_status,
        upsert_values(a) == upsert_values(b) ==> a == b,
{
    if upsert_values(a) == upsert_values(b) {
        assert(upsert_values(a)[0] == upsert_values(b)[0]);
        assert(upsert_values(a)[1] == upsert_values(b)[1]);
        assert(upsert_values(a)[2] == upsert_values(b)[2]);
        assert(upsert_values(a)[3] == upsert_values(b)[3]);
        assert(upsert_values(a)[4] == upsert_values(b)[4]);
        assert(upsert_values(a)[5] == upsert_values(b)[5]);
        assert(upsert_values(a)[6] == upsert_values(b)[6]);
        assert(upsert_values(a)[7] == upsert_values(b)[7]);
    }
}

/// An update holds exactly the players of the list whose position is kept, in the order of the list.
pub proof fn update_holds_the_kept_players(players: Vec<SleeperPlayer>, update: PlayerUpdate)
    requires
        call_ensures(PlayerUpdate::new, (players,), update),
    ensures
        update@ == players@.filter(
            |player: SleeperPlayer|
                player.position matches Some(position) && (position@ == "QB"@ || position@
                    == "RB"@ || position@ == "WR"@ || position@ == "TE"@ || position@ == "K"@
                    || position@ == "DEF"@),
        ),
{
    let listed = |player: SleeperPlayer|
        player.position matches Some(position) && (position@ == "QB"@ || position@ == "RB"@
            || position@ == "WR"@ || position@ == "TE"@ || position@ == "K"@ || position@
            == "DEF"@);
    let kept = |player: SleeperPlayer| is_kept(player);
    assert(listed =~= kept);
}

/// After a statement that failed nothing is executed and the error is returned; else the next
/// pending player is written, if there is one, and is pending no more.
pub proof fn step_follows_the_outcome<E>(pending: Seq<SleeperPlayer>, executed: Result<(), E>)
    ensures
        executed matches Err(error) ==> update_step(pending, executed).0 == UpdateStepView::Done(
            Err::<(), E>(error),
        ) && update_step(pending, executed).1 == pending,
        executed is Ok && pending.len() == 0 ==> (update_step(pending, executed).0
            matches UpdateStepView::Done(result) && result is Ok),
        executed is Ok && pending.len() > 0 ==> {
            &&& update_step(pending, executed).0 matches UpdateStepView::Execute(values)
                && values[0]->Text_0 == pending[0].player_id && values == upsert_values(pending[0])
            &&& seq![pending[0]] + update_step(pending, executed).1 == pending
        },
{
    if executed is Ok && pending.len() > 0 {
        assert(seq![pending[0]] + pending.drop_first() =~= pending);
    }
}

/// A step means itself, with all that it holds.
pub proof fn step_means_itself<E>(step: UpdateStep<E>)
    ensures
        match step {
            UpdateStep::Execute(values) => step@ matches UpdateStepView::Execute(meant) && meant
                == values@,
            UpdateStep::Done(result) => step@ matches UpdateStepView::Done(meant) && meant
                == result,
        },
{
}

/// Whatever is pending, a step writes the first pending player with that player's own fields, and
/// leaves the others pending in their order. After a statement that failed it executes nothing,
/// returns the error and leaves all who are pending.
pub proof fn step_writes_the_next_player<E>(executed: Result<(), E>)
    ensures
        forall|update: &mut PlayerUpdate, step: UpdateStep<E>| #[trigger]
            call_ensures(PlayerUpdate::step::<E>, (update, executed), step) ==> match executed {
                Err(error) => (*final(update))@ == (*update)@ && (step matches UpdateStep::Done(
                    result,
                ) && result == Err::<(), E>(error)),
                Ok(_) => match step {
                    UpdateStep::Execute(values) => {
                        &&& (*update)@ == seq![(*update)@[0]] + (*final(update))@
                        &&& values@.len() == 8
                        &&& values@[0] == SqlValue::Text((*update)@[0].player_id)
                        &&& values@[1] == SqlValue::Text((*update)@[0].first_name)
                        &&& values@[2] == SqlValue::Text((*update)@[0].last_name)
                        &&& values@[3] == SqlValue::Flag((*update)@[0].active)
                        &&& values@[4] == SqlValue::OptionalText((*update)@[0].position)
                        &&& values@[5] == SqlValue::OptionalText((*update)@[0].team)
                        &&& values@[6] == SqlValue::OptionalText((*update)@[0].status)
                        &&& values@[7] == SqlValue::OptionalText((*update)@[0].injury_status)
                    },
                    UpdateStep::Done(result) => result is Ok && (*update)@.len() == 0
                        && (*final(update))@.len() == 0,
                },
            },
{
    assert forall|update: &mut PlayerUpdate, step: UpdateStep<E>|
        #[trigger] call_ensures(PlayerUpdate::step::<E>, (update, executed), step) && executed is Ok
            && step is Execute implies (*update)@ == seq![(*update)@[0]] + (*final(update))@ by {
        assert(step@ == update_step((*update)@, executed).0);
        assert((*update)@ =~= seq![(*update)@[0]] + (*update)@.drop_first());
    }
}

/// Whether a text holds another.
pub open spec fn says(text: Seq<char>, part: Seq<char>) -> bool {
    exists|i: int|
        0 <= i <= text.len() - part.len() && #[trigger] text.subrange(i, i + part.len()) == part
}

proof fn lemma_says(text: Seq<char>, part: Seq<char>, i: int)
    requires
        0 <= i <= text.len() - part.len(),
        text.subrange(i, i + part.len()) =~= part,
    ensures
        says(text, part),
{
}

/// The statement inserts all columns, one value for each, and where the id is there already it
/// replaces every column but the id.
pub proof fn statement_replaces_every_column()
    ensures
        says(
            UPSERT_PLAYER@,
            "players(id, first_name, last_name, active, position, team, status, injury_status)"@,
        ),
        says(UPSERT_PLAYER@, "($1, $2, $3, $4, $5, $6, $7, $8)"@),
        says(UPSERT_PLAYER@, "on conflict (id)\ndo update set\n"@),
        says(UPSERT_PLAYER@, "    first_name = excluded.first_name,\n"@),
        says(UPSERT_PLAYER@, "    last_name = excluded.last_name,\n"@),
        says(UPSERT_PLAYER@, "    active = excluded.active,\n"@),
        says(UPSERT_PLAYER@, "    position = excluded.position,\n"@),
        says(UPSERT_PLAYER@, "    team = excluded.team,\n"@),
        says(UPSERT_PLAYER@, "    status = excluded.status,\n"@),
        says(UPSERT_PLAYER@, "    injury_status = excluded.injury_status\n"@),
{
    reveal_strlit(
        "\ninsert into\n    players(id, first_name, last_name, active, position, team, status, injury_status)\nvalues\n    ($1, $2, $3, $4, $5, $6, $7, $8)\non conflict (id)\ndo update set\n    first_name = excluded.first_name,\n    last_name = excluded.last_name,\n    active = excluded.active,\n    position = excluded.position,\n    team = excluded.team,\n    status = excluded.status,\n    injury_status = excluded.injury_status\n",
    );
    reveal_strlit("players(id, first_name, last_name, active, position, team, status, injury_status)");
    lemma_says(
        UPSERT_PLAYER@,
        "players(id, first_name, last_name, active, position, team, status, injury_status)"@,
        17,
    );
    reveal_strlit("($1, $2, $3, $4, $5, $6, $7, $8)");
    lemma_says(UPSERT_PLAYER@, "($1, $2, $3, $4, $5, $6, $7, $8)"@, 110);
    reveal_strlit("on conflict (id)\ndo update set\n");
    lemma_says(UPSERT_PLAYER@, "on conflict (id)\ndo update set\n"@, 143);
    reveal_strlit("    first_name = excluded.first_name,\n");
    lemma_says(UPSERT_PLAYER@, "    first_name = excluded.first_name,\n"@, 174);
    reveal_strlit("    last_name = excluded.last_name,\n");
    lemma_says(UPSERT_PLAYER@, "    last_name = excluded.last_name,\n"@, 212);
    reveal_strlit("    active = excluded.active,\n");
    lemma_says(UPSERT_PLAYER@, "    active = excluded.active,\n"@, 248);
    reveal_strlit("    position = excluded.position,\n");
    lemma_says(UPSERT_PLAYER@, "    position = excluded.position,\n"@, 278);
    reveal_strlit("    team = excluded.team,\n");
    lemma_says(UPSERT_PLAYER@, "    team = excluded.team,\n"@, 312);
    reveal_strlit("    status = excluded.status,\n");
    lemma_says(UPSERT_PLAYER@, "    status = excluded.status,\n"@, 338);
    reveal_strlit("    injury_status = excluded.injury_status\n");
    lemma_says(UPSERT_PLAYER@, "    injury_status = excluded.injury_status\n"@, 368);
}

/// The list is fetched from its server over a connection that is encrypted.
pub proof fn list_is_fetched_from_its_server()
    ensures
        PLAYERS_URL@ == "https://"@ + "api.sleeper.app"@ + "/v1/players/nfl"@,
{
    reveal_strlit("https://api.sleeper.app/v1/players/nfl");
    reveal_strlit("https://");
    reveal_strlit("api.sleeper.app");
    reveal_strlit("/v1/players/nfl");
    assert(PLAYERS_URL@ =~= "https://"@ + "api.sleeper.app"@ + "/v1/players/nfl"@);
}

} // verus!
