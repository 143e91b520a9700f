//! The change bus: it knows which view depends on which tables and tells
//! the views that a change concerns.

use crate::carrier::execute::{lemma_union_of_push, table_lists, union_of};
use crate::clock::Timestamp;
use crate::container::builder::ContainerBuilder;
use crate::factory::Factory;
use crate::{clone_tables, contains_table, lemma_merged, merge_tables, merged};
use vstd::prelude::*;

verus! {

/// Some table is in both lists.
pub open spec fn intersects(a: Seq<Seq<char>>, b: Seq<Seq<char>>) -> bool {
    exists|i: int| 0 <= i < a.len() && b.contains(#[trigger] a[i])
}

/// The tables of all `batches`, each once, in the order in which they first
/// occur.
pub open spec fn all_changed(batches: Seq<Seq<Seq<char>>>) -> Seq<Seq<char>>
    decreases batches.len(),
{
    if batches.len() == 0 {
        Seq::empty()
    } else {
        merged(all_changed(batches.drop_last()), batches.last())
    }
}

/// What a view tells the bus: the view kept at `slot` now depends on
/// `tables`.
pub struct InterestUpdate {
    pub slot: usize,
    pub tables: Vec<String>,
}

/// What the bus tells a view: tables of the view kept at `slot` changed at
/// `time_of_change`.
#[derive(Clone, Copy, Debug, PartialEq, Eq)]
pub struct Notification {
    pub slot: usize,
    pub time_of_change: Timestamp,
}

/// The interests after the views sent `updates`, in this order: the last
/// word of a view counts, and a word for a slot that does not exist is
/// dropped.
pub open spec fn with_updates(
    interests: Seq<Seq<Seq<char>>>,
    updates: Seq<InterestUpdate>,
) -> Seq<Seq<Seq<char>>>
    decreases updates.len(),
{
    if updates.len() == 0 {
        interests
    } else {
        let before = with_updates(interests, updates.drop_last());
        let update = updates.last();
        if update.slot < before.len() {
            before.update(update.slot as int, update.tables.deep_view())
        } else {
            before
        }
    }
}

/// The slots whose view depends on one of the tables `changed`, in rising
/// order.
pub open spec fn interested_slots(interests: Seq<Seq<Seq<char>>>, changed: Seq<Seq<char>>) -> Seq<
    usize,
>
    decreases interests.len(),
{
    if interests.len() == 0 {
        Seq::empty()
    } else {
        let before = interested_slots(interests.drop_last(), changed);
        if intersects(interests.last(), changed) {
            before.push((interests.len() - 1) as usize)
        } else {
            before
        }
    }
}

/// What is left of `items` when those marked in `closed` are taken out:
/// the bus keeps the views whose owner has not dropped them, in their
/// order. An item that `closed` does not reach stays.
pub open spec fn without_closed<T>(items: Seq<T>, closed: Seq<bool>) -> Seq<T>
    decreases items.len(),
{
    if items.len() == 0 {
        Seq::empty()
    } else {
        let before = without_closed(items.drop_last(), closed);
        if items.len() <= closed.len() && closed[items.len() - 1] {
            before
        } else {
            before.push(items.last())
        }
    }
}

/// A notification for each of `slots`, in their order, all with the time
/// `time_of_change`.
pub open spec fn notifications_for(slots: Seq<usize>, time_of_change: Timestamp) -> Seq<
    Notification,
> {
    Seq::new(slots.len(), |i: int| Notification { slot: slots[i], time_of_change })
}

/// What the bus keeps of one registered view: what the view depends on, and
/// the link over which the two talk.
pub struct ContainerData<L> {
    tables_interested: Vec<String>,
    link: L,
}

impl<L> ContainerData<L> {
    /// The tables that the view depends on, as far as the bus knows.
    pub closed spec fn interest(&self) -> Seq<Seq<char>> {
        self.tables_interested.deep_view()
    }

    /// The link to the view.
    pub closed spec fn payload(&self) -> L {
        self.link
    }

    /// The record of a view that has not said yet what it depends on.
    pub fn new(link: L) -> (data: Self)
        ensures
            data.interest() == Seq::<Seq<char>>::empty(),
            data.payload() == link,
    {
        let data = ContainerData { tables_interested: Vec::new(), link };
        assert(data.tables_interested.deep_view() =~= Seq::<Seq<char>>::empty());
        data
    }

    /// Takes in what the view last said of its interest, if it said
    /// anything.
    pub fn try_recv_and_update(&mut self, update: Option<Vec<String>>)
        ensures
            final(self).interest() == (match update {
                Some(tables) => tables.deep_view(),
                None => old(self).interest(),
            }),
            final(self).payload() == old(self).payload(),
    {
        if let Some(tables) = update {
            self.tables_interested = tables;
        }
    }

    /// Whether the view depends on one of `tables`.
    pub fn is_interested(&self, tables: &[String]) -> (b: bool)
        ensures
            b == intersects(tables.deep_view(), self.interest()),
    {
        let mut i: usize = 0;
        while i < tables.len()
            invariant
                i <= tables.len(),
                forall|j: int|
                    0 <= j < i ==> !self.interest().contains(#[trigger] tables.deep_view()[j]),
            decreases tables.len() - i,
        {
            if contains_table(&self.tables_interested, &tables[i]) {
                assert(self.interest().contains(tables.deep_view()[i as int]));
                return true;
            }
            i += 1;
        }
        false
    }

    /// The link to the view.
    pub fn link(&self) -> (link: &L)
        ensures
            *link == self.payload(),
    {
        &self.link
    }

    /// The link to the view, to talk over it.
    pub fn link_mut(&mut self) -> (link: &mut L)
        ensures
            *link == old(self).payload(),
            final(self).payload() == *final(link),
            final(self).interest() == old(self).interest(),
    {
        &mut self.link
    }
}

/// The bus as contracts see it.
pub struct MessengerView<L> {
    pub all_tables: Seq<Seq<char>>,
    /// The interest of each registered view, by slot.
    pub interests: Seq<Seq<Seq<char>>>,
    /// The link to each registered view, by slot.
    pub links: Seq<L>,
}

/// The interests of `records`, by position.
pub open spec fn interests_of<L>(records: Seq<ContainerData<L>>) -> Seq<Seq<Seq<char>>> {
    Seq::new(records.len(), |i: int| records[i].interest())
}

/// The links of `records`, by position.
pub open spec fn links_of<L>(records: Seq<ContainerData<L>>) -> Seq<L> {
    Seq::new(records.len(), |i: int| records[i].payload())
}

impl<L> MessengerView<L> {
    /// The bus after one round: the views' words are taken in, the views
    /// marked in `closed` are taken out, and the new views are added behind
    /// the others.
    pub open spec fn updated(
        self,
        updates: Seq<InterestUpdate>,
        closed: Seq<bool>,
        registrations: Seq<ContainerData<L>>,
    ) -> MessengerView<L> {
        MessengerView {
            interests: without_closed(with_updates(self.interests, updates), closed) + interests_of(
                registrations,
            ),
            links: without_closed(self.links, closed) + links_of(registrations),
            ..self
        }
    }

    /// The slots to notify in one round, as the views stand after it: the
    /// views that stay and, after their words were taken in, depend on a
    /// table of `tables_changed`. A view that is taken out in this round is
    /// not among them: nobody would hear. Nor is a view that registers in
    /// this round.
    pub open spec fn notified(
        self,
        updates: Seq<InterestUpdate>,
        tables_changed: Seq<Seq<Seq<char>>>,
        closed: Seq<bool>,
    ) -> Seq<usize> {
        interested_slots(
            without_closed(with_updates(self.interests, updates), closed),
            all_changed(tables_changed),
        )
    }

    /// The bus without the views marked in `closed`.
    pub open spec fn pruned(self, closed: Seq<bool>) -> MessengerView<L> {
        MessengerView {
            interests: without_closed(self.interests, closed),
            links: without_closed(self.links, closed),
            ..self
        }
    }
}

/// The change bus.
pub struct Messenger<L> {
    all_tables: Vec<String>,
    container_data: Vec<ContainerData<L>>,
}

impl<L> View for Messenger<L> {
    type V = MessengerView<L>;

    open spec fn view(&self) -> MessengerView<L> {
        MessengerView {
            all_tables: self.known(),
            interests: interests_of(self.records()),
            links: links_of(self.records()),
        }
    }
}

impl<L> Messenger<L> {
    /// The tables of the database.
    pub closed spec fn known(&self) -> Seq<Seq<char>> {
        self.all_tables.deep_view()
    }

    /// What the bus keeps of each registered view, by slot.
    pub closed spec fn records(&self) -> Seq<ContainerData<L>> {
        self.container_data@
    }

    /// A bus for a database with the tables `all_tables`, as the engine
    /// lists them, with no view registered.
    pub fn new(all_tables: Vec<String>) -> (messenger: Self)
        ensures
            messenger@.interests.len() == 0,
            messenger@.links.len() == 0,
            messenger@.all_tables == all_tables.deep_view(),
    {
        Messenger { all_tables, container_data: Vec::new() }
    }

    /// The tables of the database.
    pub fn all_tables(&self) -> (tables: &Vec<String>)
        ensures
            tables.deep_view() == self@.all_tables,
    {
        &self.all_tables
    }

    /// A builder for one view of this database.
    pub fn builder(&self) -> (builder: ContainerBuilder)
        ensures
            builder.known() == self@.all_tables,
            builder.label() is None,
    {
        ContainerBuilder::new(clone_tables(&self.all_tables))
    }

    /// What hands out builders for views of this database.
    pub fn factory(&self) -> (factory: Factory)
        ensures
            factory.known() == self@.all_tables,
    {
        Factory::new(clone_tables(&self.all_tables))
    }

    /// How many views are registered.
    pub fn len(&self) -> (n: usize)
        ensures
            n == self@.interests.len(),
    {
        self.container_data.len()
    }

    /// One round of the bus, at the time the clock shows. `interests` is
    /// what the views said of their interest since the last round,
    /// `tables_changed` the tables of the writes that succeeded since then,
    /// `new_registrations` the views that registered since then, and
    /// `closed` marks, by slot, the views whose owner has dropped them. The
    /// result names the views to notify, by their slots after the round in
    /// rising order, all with one time of change.
    pub fn state_update(
        &mut self,
        interests: Vec<InterestUpdate>,
        tables_changed: &Vec<Vec<String>>,
        new_registrations: Vec<ContainerData<L>>,
        closed: &Vec<bool>,
    ) -> (notifications: Vec<Notification>)
        ensures
            final(self)@ == old(self)@.updated(interests@, closed@, new_registrations@),
            exists|now: Timestamp|
                notifications@ == notifications_for(
                    old(self)@.notified(interests@, table_lists(tables_changed@), closed@),
                    now,
                ),
    {
        self.state_update_at(
            interests,
            tables_changed,
            new_registrations,
            closed,
            Timestamp::now(),
        )
    }

    /// One round of the bus at the time `now`: the views' words are taken
    /// in; the views marked in `closed` are taken out; each view that stays
    /// and depends on a table that changed is to be notified, with `now` as
    /// the time of the change; the new views are added behind the others.
    pub fn state_update_at(
        &mut self,
        interests: Vec<InterestUpdate>,
        tables_changed: &Vec<Vec<String>>,
        new_registrations: Vec<ContainerData<L>>,
        closed: &Vec<bool>,
        now: Timestamp,
    ) -> (notifications: Vec<Notification>)
        ensures
            final(self)@ == old(self)@.updated(interests@, closed@, new_registrations@),
            notifications@ == notifications_for(
                old(self)@.notified(interests@, table_lists(tables_changed@), closed@),
                now,
            ),
    {
        self.take_in_interests(interests);
        self.prune(closed);
        let changed = Self::changed_tables(tables_changed);
        let slots = self.route(&changed);
        let mut notifications: Vec<Notification> = Vec::new();
        let mut i: usize = 0;
        while i < slots.len()
            invariant
                i <= slots.len(),
                notifications@ == notifications_for(slots@.take(i as int), now),
            decreases slots.len() - i,
        {
            notifications.push(Notification { slot: slots[i], time_of_change: now });
            assert(notifications@ =~= notifications_for(slots@.take(i + 1), now));
            i += 1;
        }
        assert(slots@.take(i as int) =~= slots@);
        let ghost before = self.container_data@;
        let ghost added = new_registrations@;
        let mut new_registrations = new_registrations;
        self.container_data.append(&mut new_registrations);
        assert(interests_of(self.container_data@) =~= interests_of(before) + interests_of(added));
        assert(links_of(self.container_data@) =~= links_of(before) + links_of(added));
        notifications
    }

    /// Takes in what the views said of their interest, in the order in
    /// which they said it.
    fn take_in_interests(&mut self, interests: Vec<InterestUpdate>)
        ensures
            final(self)@.all_tables == old(self)@.all_tables,
            final(self)@.links == old(self)@.links,
            final(self)@.interests == with_updates(old(self)@.interests, interests@),
    {
        assert(interests@.take(0) =~= Seq::<InterestUpdate>::empty());
        for update in it: interests
            invariant
                it.seq() == interests@,
                self.all_tables == old(self).all_tables,
                self@.links == old(self)@.links,
                self@.interests == with_updates(
                    old(self)@.interests,
                    interests@.take(it.index() as int),
                ),
        {
            let ghost held = self@.interests;
            let ghost links = self@.links;
            proof {
                let taken = interests@.take(it.index() + 1);
                assert(taken.drop_last() =~= interests@.take(it.index() as int));
                assert(taken.last() == update);
            }
            let InterestUpdate { slot, tables } = update;
            if slot < self.container_data.len() {
                self.container_data[slot].try_recv_and_update(Some(tables));
                assert(self@.interests =~= held.update(slot as int, tables.deep_view()));
                assert(self@.links =~= links);
            }
        }
        assert(interests@.take(interests@.len() as int) =~= interests@);
    }

    /// What the bus keeps of the view at `slot`, if there is such a view.
    pub fn record(&self, slot: usize) -> (record: Option<&ContainerData<L>>)
        ensures
            record is Some <==> slot < self.records().len(),
            record matches Some(record) ==> *record == self.records()[slot as int],
    {
        if slot < self.container_data.len() {
            Some(&self.container_data[slot])
        } else {
            None
        }
    }

    /// What the bus keeps of the view at `slot`, to talk over its link, if
    /// there is such a view.
    pub fn record_mut(&mut self, slot: usize) -> (record: Option<&mut ContainerData<L>>)
        ensures
            record is Some <==> slot < old(self).records().len(),
            record is None ==> *final(self) == *old(self),
            final(self).known() == old(self).known(),
            record matches Some(record) ==> *record == old(self).records()[slot as int]
                && final(self).records() == old(self).records().update(slot as int, *final(record)),
    {
        if slot < self.container_data.len() {
            Some(&mut self.container_data[slot])
        } else {
            None
        }
    }

    /// The tables of all `batches`, each once.
    pub fn changed_tables(batches: &Vec<Vec<String>>) -> (changed: Vec<String>)
        ensures
            changed.deep_view() == all_changed(table_lists(batches@)),
    {
        let ghost lists = table_lists(batches@);
        let mut changed: Vec<String> = Vec::new();
        let mut i: usize = 0;
        assert(lists.take(0) =~= Seq::<Seq<Seq<char>>>::empty());
        assert(changed.deep_view() =~= Seq::<Seq<char>>::empty());
        while i < batches.len()
            invariant
                i <= batches.len(),
                lists == table_lists(batches@),
                changed.deep_view() == all_changed(lists.take(i as int)),
            decreases batches.len() - i,
        {
            assert(lists.take(i + 1).drop_last() =~= lists.take(i as int));
            merge_tables(&mut changed, &batches[i]);
            i += 1;
        }
        assert(lists.take(i as int) =~= lists);
        changed
    }

    /// The slots of the views that depend on one of the tables `changed`,
    /// in rising order.
    pub fn route(&self, changed: &Vec<String>) -> (slots: Vec<usize>)
        ensures
            slots@ == interested_slots(self@.interests, changed.deep_view()),
    {
        let mut slots: Vec<usize> = Vec::new();
        let mut i: usize = 0;
        let ghost interests = self@.interests;
        assert(interests.take(0) =~= Seq::<Seq<Seq<char>>>::empty());
        while i < self.container_data.len()
            invariant
                i <= self.container_data.len(),
                interests == self@.interests,
                slots@ == interested_slots(interests.take(i as int), changed.deep_view()),
            decreases self.container_data.len() - i,
        {
            assert(interests.take(i + 1).drop_last() =~= interests.take(i as int));
            let interested = self.container_data[i].is_interested(changed.as_slice());
            proof {
                lemma_intersects_is_symmetric(changed.deep_view(), interests[i as int]);
            }
            if interested {
                slots.push(i);
            }
            i += 1;
        }
        assert(interests.take(i as int) =~= interests);
        slots
    }

    /// Takes out the views marked in `closed`: the views whose owner has
    /// dropped them. The others keep their order.
    pub fn prune(&mut self, closed: &Vec<bool>)
        ensures
            final(self)@ == old(self)@.pruned(closed@),
    {
        let mut kept: Vec<ContainerData<L>> = Vec::new();
        let mut all: Vec<ContainerData<L>> = Vec::new();
        std::mem::swap(&mut all, &mut self.container_data);
        let ghost records = all@;
        assert(records.len() <= usize::MAX) by {
            assert(records.len() == all.len());
        }
        let mut i: usize = 0;
        proof {
            assert(interests_of(kept@) =~= without_closed(interests_of(records.take(0)), closed@));
            assert(links_of(kept@) =~= without_closed(links_of(records.take(0)), closed@));
        }
        for data in it: all
            invariant
                it.seq() == records,
                records.len() <= usize::MAX,
                i == it.index(),
                self.all_tables == old(self).all_tables,
                interests_of(kept@) == without_closed(
                    interests_of(records.take(it.index() as int)),
                    closed@,
                ),
                links_of(kept@) == without_closed(
                    links_of(records.take(it.index() as int)),
                    closed@,
                ),
        {
            let ghost kept_before = kept@;
            proof {
                let taken = records.take(i + 1);
                assert(interests_of(taken).drop_last() =~= interests_of(records.take(i as int)));
                assert(interests_of(taken).last() == data.interest());
                assert(links_of(taken).drop_last() =~= links_of(records.take(i as int)));
                assert(links_of(taken).last() == data.payload());
            }
            let is_closed = i < closed.len() && closed[i];
            if !is_closed {
                kept.push(data);
                assert(interests_of(kept@) =~= interests_of(kept_before).push(data.interest()));
                assert(links_of(kept@) =~= links_of(kept_before).push(data.payload()));
            }
            i = i + 1;
        }
        assert(records.take(records.len() as int) =~= records);
        self.container_data = kept;
    }
}

/// Two lists share a table whichever is asked first.
pub proof fn lemma_intersects_is_symmetric(a: Seq<Seq<char>>, b: Seq<Seq<char>>)
    ensures
        intersects(a, b) == intersects(b, a),
{
    if intersects(a, b) {
        let i = choose|i: int| 0 <= i < a.len() && b.contains(#[trigger] a[i]);
        let j = choose|j: int| 0 <= j < b.len() && b[j] == a[i];
        assert(a.contains(b[j]));
    }
    if intersects(b, a) {
        let i = choose|i: int| 0 <= i < b.len() && a.contains(#[trigger] b[i]);
        let j = choose|j: int| 0 <= j < a.len() && a[j] == b[i];
        assert(b.contains(a[j]));
    }
}

/// A view is notified exactly when it depends on a table that changed.
pub proof fn lemma_notified_iff_interested(
    interests: Seq<Seq<Seq<char>>>,
    changed: Seq<Seq<char>>,
    slot: usize,
)
    requires
        interests.len() <= usize::MAX,
    ensures
        interested_slots(interests, changed).contains(slot) <==> slot < interests.len()
            && intersects(interests[slot as int], changed),
    decreases interests.len(),
{
    if interests.len() > 0 {
        let before = interested_slots(interests.drop_last(), changed);
        lemma_notified_iff_interested(interests.drop_last(), changed, slot);
        if intersects(interests.last(), changed) {
            let last = (interests.len() - 1) as usize;
            assert(before.push(last).last() == last);
            assert(forall|j: int| 0 <= j < before.len() ==> before.push(last)[j] == before[j]);
            if before.contains(slot) {
                let j = choose|j: int| 0 <= j < before.len() && before[j] == slot;
                assert(before.push(last)[j] == slot);
            }
        }
    }
}

/// The tables gathered from the reports of a round are those of its
/// writes, each held once.
pub proof fn lemma_all_changed(batches: Seq<Seq<Seq<char>>>)
    ensures
        all_changed(batches).to_set() == union_of(batches),
        all_changed(batches).no_duplicates(),
    decreases batches.len(),
{
    if batches.len() == 0 {
        assert(all_changed(batches).to_set() =~= union_of(batches));
    } else {
        let rest = batches.drop_last();
        lemma_all_changed(rest);
        lemma_merged(all_changed(rest), batches.last());
        lemma_union_of_push(rest, batches.last());
        assert(batches =~= rest.push(batches.last()));
    }
}

/// Pruning takes out the marked items and no others, and keeps the rest in
/// their order: every item that is not marked is still there, nothing is
/// there that was not, and where nothing is marked nothing changes.
pub proof fn lemma_without_closed<T>(items: Seq<T>, closed: Seq<bool>)
    ensures
        without_closed(items, closed).len() <= items.len(),
        forall|i: int|
            0 <= i < items.len() && !(i < closed.len() && closed[i]) ==> without_closed(
                items,
                closed,
            ).contains(#[trigger] items[i]),
        forall|item: T| #[trigger]
            without_closed(items, closed).contains(item) ==> items.contains(item),
        (forall|i: int| 0 <= i < items.len() && i < closed.len() ==> !closed[i])
            ==> without_closed(items, closed) == items,
    decreases items.len(),
{
    if items.len() > 0 {
        let rest = items.drop_last();
        let last = items.last();
        let kept = without_closed(rest, closed);
        lemma_without_closed(rest, closed);
        let dropped = items.len() <= closed.len() && closed[items.len() - 1];
        assert forall|i: int|
            0 <= i < items.len() && !(i < closed.len() && closed[i]) implies without_closed(
            items,
            closed,
        ).contains(#[trigger] items[i]) by {
            if i < rest.len() {
                assert(rest[i] == items[i]);
                let j = choose|j: int| 0 <= j < kept.len() && kept[j] == rest[i];
                if !dropped {
                    assert(kept.push(last)[j] == items[i]);
                }
            } else {
                assert(kept.push(last)[kept.len() as int] == last);
            }
        }
        assert forall|item: T| #[trigger]
            without_closed(items, closed).contains(item) implies items.contains(item) by {
            let j = choose|j: int|
                0 <= j < without_closed(items, closed).len() && without_closed(items, closed)[j]
                    == item;
            if j < kept.len() {
                assert(kept[j] == item);
                assert(kept.contains(item));
                let i = choose|i: int| 0 <= i < rest.len() && rest[i] == item;
                assert(items[i] == item);
            } else {
                assert(items[items.len() - 1] == item);
            }
        }
        if forall|i: int| 0 <= i < items.len() && i < closed.len() ==> !closed[i] {
            assert(kept == rest);
            assert(without_closed(items, closed) =~= items);
        }
    } else {
        assert(without_closed(items, closed) =~= items);
    }
}

/// A view is notified in a round exactly when it stays and, after its
/// words of that round were taken in, depends on a table that a write of
/// that round touched. `slot` is the view's slot after the round.
pub proof fn lemma_notified_iff_a_table_of_the_view_changed<L>(
    bus: MessengerView<L>,
    updates: Seq<InterestUpdate>,
    tables_changed: Seq<Seq<Seq<char>>>,
    closed: Seq<bool>,
    slot: usize,
)
    requires
        bus.interests.len() <= usize::MAX,
    ensures
        ({
            let staying = without_closed(with_updates(bus.interests, updates), closed);
            bus.notified(updates, tables_changed, closed).contains(slot) <==> slot < staying.len()
                && exists|table: Seq<char>|
                staying[slot as int].contains(table) && #[trigger] union_of(
                    tables_changed,
                ).contains(table)
        }),
{
    let interests = without_closed(with_updates(bus.interests, updates), closed);
    let changed = all_changed(tables_changed);
    lemma_updates_keep_length(bus.interests, updates);
    lemma_without_closed(with_updates(bus.interests, updates), closed);
    lemma_notified_iff_interested(interests, changed, slot);
    lemma_all_changed(tables_changed);
    if slot < interests.len() {
        let interest = interests[slot as int];
        if intersects(interest, changed) {
            let i = choose|i: int| 0 <= i < interest.len() && changed.contains(#[trigger] interest[i]);
            assert(interest.contains(interest[i]));
            assert(changed.to_set().contains(interest[i]));
            assert(union_of(tables_changed).contains(interest[i]));
        }
        if exists|table: Seq<char>|
            interest.contains(table) && #[trigger] union_of(tables_changed).contains(table) {
            let table = choose|table: Seq<char>|
                interest.contains(table) && #[trigger] union_of(tables_changed).contains(table);
            let i = choose|i: int| 0 <= i < interest.len() && interest[i] == table;
            assert(changed.to_set().contains(table));
            assert(changed.contains(interest[i]));
        }
    }
}

/// A bus without views notifies nobody, whatever changes, whatever is said
/// to it and whatever is marked as closed, and still has no view afterwards
/// unless one registers.
pub proof fn lemma_empty_bus_notifies_nobody<L>(
    bus: MessengerView<L>,
    updates: Seq<InterestUpdate>,
    tables_changed: Seq<Seq<Seq<char>>>,
    closed: Seq<bool>,
)
    requires
        bus.interests.len() == 0,
        bus.links.len() == 0,
    ensures
        bus.notified(updates, tables_changed, closed).len() == 0,
        bus.updated(updates, closed, Seq::empty()).interests.len() == 0,
        bus.updated(updates, closed, Seq::empty()).links.len() == 0,
{
    lemma_updates_keep_length(bus.interests, updates);
    lemma_without_closed(with_updates(bus.interests, updates), closed);
    lemma_without_closed(bus.links, closed);
}

/// What the views say changes no slot's existence.
pub proof fn lemma_updates_keep_length(interests: Seq<Seq<Seq<char>>>, updates: Seq<InterestUpdate>)
    ensures
        with_updates(interests, updates).len() == interests.len(),
    decreases updates.len(),
{
    if updates.len() > 0 {
        lemma_updates_keep_length(interests, updates.drop_last());
    }
}

} // verus!
