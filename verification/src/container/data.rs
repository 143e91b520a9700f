//! The rows of a view, in the order in which they came and in the order
//! that their owner asked for.

use std::cmp::Ordering;
use vstd::prelude::*;

verus! {

/// How a comparator places its first argument against its second.
#[derive(Clone, Copy, Debug, PartialEq, Eq)]
pub enum Order {
    Less,
    Equal,
    Greater,
}

impl Order {
    /// The placement of the second argument against the first.
    pub open spec fn opposite(self) -> Order {
        match self {
            Order::Less => Order::Greater,
            Order::Equal => Order::Equal,
            Order::Greater => Order::Less,
        }
    }

    /// The placement that `ordering` stands for.
    pub fn from_ordering(ordering: Ordering) -> (order: Order)
        ensures
            order == (match ordering {
                Ordering::Less => Order::Less,
                Ordering::Equal => Order::Equal,
                Ordering::Greater => Order::Greater,
            }),
    {
        match ordering {
            Ordering::Less => Order::Less,
            Ordering::Equal => Order::Equal,
            Ordering::Greater => Order::Greater,
        }
    }

    /// The `Ordering` that stands for this placement.
    pub fn to_ordering(self) -> (ordering: Ordering)
        ensures
            ordering == (match self {
                Order::Less => Ordering::Less,
                Order::Equal => Ordering::Equal,
                Order::Greater => Ordering::Greater,
            }),
    {
        match self {
            Order::Less => Ordering::Less,
            Order::Equal => Ordering::Equal,
            Order::Greater => Ordering::Greater,
        }
    }
}

/// `compare` may answer `order` when asked to place `a` against `b`.
pub open spec fn says<V, F: Fn(&V, &V) -> Order>(compare: F, a: V, b: V, order: Order) -> bool {
    call_ensures(compare, (&a, &b), order)
}

/// `compare` is a total order: it can be asked to place any row against
/// any other and always answers the same way; its answer to the opposite
/// question is the opposite answer; and where it places `a` against `b` as
/// it places `b` against `c`, it places `a` against `c` in that way too.
pub open spec fn orders<V, F: Fn(&V, &V) -> Order>(compare: F) -> bool {
    &&& forall|a: V, b: V| call_requires(compare, (&a, &b))
    &&& forall|a: V, b: V, first: Order, second: Order|
        #[trigger] says(compare, a, b, first) && #[trigger] says(compare, a, b, second) ==> first
            == second
    &&& forall|a: V, b: V, there: Order, back: Order|
        #[trigger] says(compare, a, b, there) && #[trigger] says(compare, b, a, back) ==> back
            == there.opposite()
    &&& forall|a: V, b: V, c: V, order: Order, across: Order|
        #[trigger] says(compare, a, b, order) && #[trigger] says(compare, b, c, order)
            && #[trigger] says(compare, a, c, across) ==> across == order
}

/// `order` names each position below `len` once.
pub open spec fn is_arrangement(order: Seq<int>, len: nat) -> bool {
    &&& order.len() == len
    &&& forall|k: int| 0 <= k < len ==> 0 <= #[trigger] order[k] < len
    &&& forall|k: int, l: int| 0 <= k < l < len ==> order[k] != order[l]
}

/// `compare` gives an answer under which `a` may stand before `b` in
/// sorted order: that `a` is less, or that the two are equal, where `a`
/// came before `b`.
pub open spec fn may_precede<V, F: Fn(&V, &V) -> Order>(
    compare: F,
    a: V,
    b: V,
    came_first: bool,
) -> bool {
    exists|order: Order| #[trigger]
        says(compare, a, b, order) && (order == Order::Less || (order == Order::Equal
            && came_first))
}

/// Taking the rows in the order `order` sorts them by `compare`: of two
/// rows, the one that `compare` places before the other stands first, and
/// rows that `compare` holds equal keep the order in which they came.
pub open spec fn sorts<V, F: Fn(&V, &V) -> Order>(
    order: Seq<int>,
    rows: Seq<V>,
    compare: F,
) -> bool {
    &&& is_arrangement(order, rows.len())
    &&& forall|k: int, l: int|
        0 <= k < l < rows.len() ==> may_precede(
            compare,
            rows[#[trigger] order[k]],
            rows[#[trigger] order[l]],
            order[k] < order[l],
        )
}

/// `permutation::Permutation`, taken as it is: contracts see of it only the
/// order that it stands for.
#[verifier::external_type_specification]
#[verifier::external_body]
pub struct ExPermutation(permutation::Permutation);

/// The order that a `Permutation` stands for: applied to a list, it puts
/// at each position `k` the item that the list holds at position
/// `order_of(p)[k]`.
pub uninterp spec fn order_of(p: permutation::Permutation) -> Seq<int>;

/// Calls `permutation::sort_by` on the rows, with `compare` as the
/// comparator. The contract says that the permutation it returns sorts the
/// rows as a stable sort does: `permutation::sort_by` sorts the positions
/// `0..len` with the standard stable sort, comparing the rows at two
/// positions, so that of two rows the one stands first that `compare`
/// answers to be less, or that came first where it answers that they are
/// equal. The contract takes `compare` to give an answer for any two rows,
/// also for two that the sort did not compare: that a function answers at
/// all is more than Verus lets a caller prove of it, so it cannot be asked
/// of the caller in `orders` and is taken on trust here. A comparator that
/// is no total order is left out: the sort may then panic.
#[verifier::external_body]
fn sort_order<V, F: Fn(&V, &V) -> Order>(rows: &Vec<V>, compare: &F) -> (p:
    permutation::Permutation)
    requires
        orders::<V, F>(*compare),
    ensures
        sorts(order_of(p), rows@, *compare),
{
    permutation::sort_by(rows, |a: &V, b: &V| compare(a, b).to_ordering())
}

/// Calls `Permutation::apply_slice` on the items. The contract says that
/// the result holds at each position the item that the order of the
/// permutation names for it. Lists of another length than the permutation
/// are left out: `apply_slice` panics on them.
#[verifier::external_body]
fn apply_order<'a, V>(p: &permutation::Permutation, items: Vec<&'a V>) -> (out: Vec<&'a V>)
    requires
        is_arrangement(order_of(*p), items@.len()),
    ensures
        out@.len() == items@.len(),
        forall|k: int| 0 <= k < out@.len() ==> out@[k] == items@[#[trigger] order_of(*p)[k]],
{
    p.apply_slice(items)
}

/// A comparator and the order in which it puts the rows.
struct DataSorting<F> {
    permutation: permutation::Permutation,
    sorting_fn: F,
}

/// The rows of a view and whether they changed since their owner last
/// looked.
pub struct Data<Value, F: Fn(&Value, &Value) -> Order> {
    data: Vec<Value>,
    sorting: Option<DataSorting<F>>,
    has_changed: bool,
}

/// The rows of a view as contracts see them.
pub struct DataView<Value> {
    /// The rows, in the order in which they came.
    pub rows: Seq<Value>,
    /// Whether the rows were set since their owner last looked.
    pub has_changed: bool,
}

impl<Value> DataView<Value> {
    /// After new rows were set.
    pub open spec fn set(self, rows: Seq<Value>) -> DataView<Value> {
        DataView { rows, has_changed: true }
    }

    /// After the owner has looked.
    pub open spec fn viewed(self) -> DataView<Value> {
        DataView { has_changed: false, ..self }
    }
}

impl<Value, F: Fn(&Value, &Value) -> Order> View for Data<Value, F> {
    type V = DataView<Value>;

    closed spec fn view(&self) -> DataView<Value> {
        DataView { rows: self.data@, has_changed: self.has_changed }
    }
}

/// A reference to each row, in the rows' order.
pub fn refs_of<V>(rows: &Vec<V>) -> (refs: Vec<&V>)
    ensures
        refs@.len() == rows@.len(),
        forall|k: int| 0 <= k < refs@.len() ==> *refs@[k] == rows@[k],
{
    let mut refs: Vec<&V> = Vec::new();
    let mut i: usize = 0;
    while i < rows.len()
        invariant
            i <= rows.len(),
            refs@.len() == i,
            forall|k: int| 0 <= k < i ==> *refs@[k] == rows@[k],
        decreases rows.len() - i,
    {
        refs.push(&rows[i]);
        i += 1;
    }
    refs
}

impl<Value, F: Fn(&Value, &Value) -> Order> Data<Value, F> {
    /// The comparator by which the owner asked the rows to be sorted.
    pub closed spec fn comparator(&self) -> Option<F> {
        match self.sorting {
            Some(sorting) => Some(sorting.sorting_fn),
            None => None,
        }
    }

    /// The order in which `sorted` hands out the rows, where a comparator
    /// is set: position `k` gets the row that came at position `order[k]`.
    pub closed spec fn order(&self) -> Option<Seq<int>> {
        match self.sorting {
            Some(sorting) => Some(order_of(sorting.permutation)),
            None => None,
        }
    }

    /// What holds of all rows that are held: where a comparator is set, it
    /// is a total order and the order kept with it sorts the rows by it.
    #[verifier::type_invariant]
    pub open spec fn wf(&self) -> bool {
        &&& self.order() is Some <==> self.comparator() is Some
        &&& self.comparator() matches Some(compare) ==> orders(compare) && sorts(
            self.order()->0,
            self@.rows,
            compare,
        )
    }

    /// No rows, no comparator, and nothing for the owner to look at: the
    /// rows count as unchanged until they are first set.
    pub fn new() -> (data: Self)
        ensures
            data@ == (DataView { rows: Seq::<Value>::empty(), has_changed: false }),
            data.comparator() is None,
            data.wf(),
    {
        Data { data: Vec::new(), sorting: None, has_changed: false }
    }

    /// Replaces the rows, and sorts the new rows if a comparator is set.
    pub fn set(&mut self, new_data: Vec<Value>)
        ensures
            final(self)@ == old(self)@.set(new_data@),
            final(self).comparator() == old(self).comparator(),
            final(self).wf(),
    {
        proof {
            use_type_invariant(&*self);
        }
        let mut held = Data { data: Vec::new(), sorting: None, has_changed: true };
        std::mem::swap(self, &mut held);
        let Data { data: _, sorting, has_changed: _ } = held;
        let sorting = match sorting {
            Some(DataSorting { permutation: _, sorting_fn }) => {
                let permutation = sort_order(&new_data, &sorting_fn);
                Some(DataSorting { permutation, sorting_fn })
            },
            None => None,
        };
        *self = Data { data: new_data, sorting, has_changed: true };
    }

    /// Records that the owner has looked at the rows.
    pub fn set_viewed(&mut self)
        ensures
            final(self)@ == old(self)@.viewed(),
            final(self).comparator() == old(self).comparator(),
            final(self).order() == old(self).order(),
            final(self).wf(),
    {
        proof {
            use_type_invariant(&*self);
        }
        self.has_changed = false;
    }

    /// Whether the rows were set since the owner last looked.
    pub fn has_changed(&self) -> (b: bool)
        ensures
            b == self@.has_changed,
    {
        self.has_changed
    }

    /// The rows, in the order in which they came.
    pub fn data(&self) -> (rows: &Vec<Value>)
        ensures
            rows@ == self@.rows,
    {
        &self.data
    }

    /// The rows in the comparator's order; in the order in which they came
    /// where no comparator is set. Of two rows handed out, the comparator
    /// places the first before the second or holds them equal.
    pub fn sorted(&self) -> (out: Vec<&Value>)
        ensures
            self.wf(),
            out@.len() == self@.rows.len(),
            self.order() is None ==> forall|k: int|
                0 <= k < out@.len() ==> *out@[k] == self@.rows[k],
            self.order() matches Some(order) ==> forall|k: int|
                0 <= k < out@.len() ==> *out@[k] == self@.rows[#[trigger] order[k]],
            self.comparator() matches Some(compare) ==> sorts(self.order()->0, self@.rows, compare)
                && forall|k: int, l: int|
                0 <= k < l < out@.len() ==> may_precede(
                    compare,
                    *#[trigger] out@[k],
                    *#[trigger] out@[l],
                    true,
                ),
    {
        proof {
            use_type_invariant(self);
        }
        let refs = refs_of(&self.data);
        match &self.sorting {
            Some(sorting) => {
                let out = apply_order(&sorting.permutation, refs);
                proof {
                    let order = order_of(sorting.permutation);
                    assert forall|k: int, l: int| 0 <= k < l < out@.len() implies may_precede(
                        sorting.sorting_fn,
                        *#[trigger] out@[k],
                        *#[trigger] out@[l],
                        true,
                    ) by {
                        assert(*out@[k] == self.data@[order[k]]);
                        assert(*out@[l] == self.data@[order[l]]);
                        assert(may_precede(
                            sorting.sorting_fn,
                            self.data@[order[k]],
                            self.data@[order[l]],
                            order[k] < order[l],
                        ));
                    }
                }
                out
            },
            None => refs,
        }
    }

    /// Sets the comparator and sorts the rows by it. The comparator must be
    /// a total order.
    pub fn new_sorting(&mut self, sorting_fn: F)
        requires
            orders(sorting_fn),
        ensures
            final(self)@ == old(self)@,
            final(self).comparator() == Some(sorting_fn),
            final(self).wf(),
    {
        let permutation = sort_order(&self.data, &sorting_fn);
        self.sorting = Some(DataSorting { permutation, sorting_fn });
    }
}

impl<Value, F: Fn(&Value, &Value) -> Order> Default for Data<Value, F> {
    /// No rows, no comparator, and nothing for the owner to look at: the
    /// rows count as unchanged until they are first set.
    fn default() -> (data: Self)
        ensures
            data@ == (DataView { rows: Seq::<Value>::empty(), has_changed: false }),
            data.comparator() is None,
            data.wf(),
    {
        Self::new()
    }
}

/// What holds the rows of a view.
pub trait HasData<Value, F: Fn(&Value, &Value) -> Order + 'static>: Sized {
    /// The rows that are held.
    spec fn data_held(&self) -> Data<Value, F>;

    /// `other` is as `self` in all but the rows.
    spec fn same_but_data(&self, other: &Self) -> bool;

    fn ref_data(&self) -> (data: &Data<Value, F>)
        ensures
            *data == self.data_held(),
    ;

    fn ref_mut_data(&mut self) -> (data: &mut Data<Value, F>)
        ensures
            *data == old(self).data_held(),
            final(self).data_held() == *final(data),
            old(self).same_but_data(final(self)),
    ;
}

/// What the owner of a view can do with its rows.
pub trait ImplData<Value, F: Fn(&Value, &Value) -> Order + 'static>: HasData<Value, F> {
    /// The rows, in the order in which they came.
    fn data(&self) -> (rows: &Vec<Value>)
        ensures
            rows@ == self.data_held()@.rows,
    ;

    /// Sets the comparator by which `sorted` orders the rows.
    fn sort(&mut self, sorting_fn: F)
        requires
            orders(sorting_fn),
        ensures
            final(self).data_held()@ == old(self).data_held()@,
            final(self).data_held().comparator() == Some(sorting_fn),
            final(self).data_held().wf(),
            old(self).same_but_data(final(self)),
    ;

    /// The rows in the comparator's order; in the order in which they came
    /// where no comparator is set.
    fn sorted(&self) -> (out: Vec<&Value>)
        ensures
            out@.len() == self.data_held()@.rows.len(),
            self.data_held().order() is None ==> forall|k: int|
                0 <= k < out@.len() ==> *out@[k] == self.data_held()@.rows[k],
            self.data_held().order() matches Some(order) ==> forall|k: int|
                0 <= k < out@.len() ==> *out@[k] == self.data_held()@.rows[#[trigger] order[k]],
            self.data_held().comparator() matches Some(compare) ==> sorts(
                self.data_held().order()->0,
                self.data_held()@.rows,
                compare,
            ) && forall|k: int, l: int|
                0 <= k < l < out@.len() ==> may_precede(
                    compare,
                    *#[trigger] out@[k],
                    *#[trigger] out@[l],
                    true,
                ),
    ;

    /// Whether the rows were set since the owner last looked.
    fn has_changed(&self) -> (b: bool)
        ensures
            b == self.data_held()@.has_changed,
    ;

    /// Records that the owner has looked at the rows.
    fn set_viewed(&mut self) -> (this: &mut Self)
        ensures
            this.data_held()@ == old(self).data_held()@.viewed(),
            this.data_held().comparator() == old(self).data_held().comparator(),
            this.data_held().order() == old(self).data_held().order(),
            old(self).same_but_data(this),
            *final(self) == *final(this),
    ;
}

impl<T, Value, F: Fn(&Value, &Value) -> Order + 'static> ImplData<Value, F> for T where
    T: HasData<Value, F>,
 {
    fn data(&self) -> (rows: &Vec<Value>) {
        self.ref_data().data()
    }

    fn sort(&mut self, sorting_fn: F) {
        self.ref_mut_data().new_sorting(sorting_fn);
    }

    fn sorted(&self) -> (out: Vec<&Value>) {
        self.ref_data().sorted()
    }

    fn has_changed(&self) -> (b: bool) {
        self.ref_data().has_changed()
    }

    fn set_viewed(&mut self) -> (this: &mut Self) {
        self.ref_mut_data().set_viewed();
        self
    }
}

/// When rows are set and their owner has looked, the rows count as
/// unchanged; when rows are set again, they count as changed, also where
/// the new rows equal the old.
pub proof fn lemma_changed_after_every_set<Value>(
    data: DataView<Value>,
    rows: Seq<Value>,
    again: Seq<Value>,
)
    ensures
        data.set(rows).has_changed,
        !data.set(rows).viewed().has_changed,
        data.set(rows).viewed().rows == rows,
        data.set(rows).viewed().set(again).has_changed,
{
}

} // verus!
