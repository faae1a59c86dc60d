//! Raw data sources: owners that can be split into a stable raw form and put back.
//!
//! An owner (a box, a vector, a string, a reference-counted pointer, a borrowed
//! reference) is converted into a pair of a [`RawData`] handle and an auxiliary value.
//! The handle stands where the non-null address of the pointee stands: it keeps the
//! pointee in place however the handle itself is moved, and the pointee is read and
//! written through it. The auxiliary value is what the owner needs besides (the
//! capacity of a vector); moving it never touches the pointee.
//!
//! What the callers of these operations owe is written in the `requires` clauses:
//! a handle is put back together with the auxiliary value that was issued with it, and
//! only while no view is recorded on it; it is read only while no exclusive view is
//! recorded, and written only while no shared view is.
use std::marker::PhantomData;
use std::rc::Rc;
use std::sync::Arc;
use vstd::prelude::*;
use vstd::utf8::encode_utf8;

verus! {

/// The views that are recorded on a raw handle.
#[derive(Clone, Copy, Debug, PartialEq, Eq, Structural)]
pub enum BorrowState {
    /// No view is recorded.
    Unborrowed,
    /// This many read-only views are recorded.
    Shared(usize),
    /// One read/write view is recorded.
    Exclusive,
}

/// What is done with a view of the pointee of a raw handle.
#[derive(Clone, Copy, Debug, PartialEq, Eq, Structural)]
pub enum BorrowEvent {
    /// A read-only view is recorded.
    AcquireShared,
    /// A read-only view is given up.
    ReleaseShared,
    /// The read/write view is recorded.
    AcquireExclusive,
    /// The read/write view is given up.
    ReleaseExclusive,
}

impl BorrowState {
    /// The number of read-only views.
    pub open spec fn readers(self) -> nat {
        match self {
            BorrowState::Shared(count) => count as nat,
            _ => 0,
        }
    }

    /// The number of read/write views.
    pub open spec fn writers(self) -> nat {
        match self {
            BorrowState::Exclusive => 1,
            _ => 0,
        }
    }

    /// Whether the state is one that the events lead to: shared views are counted
    /// from one.
    pub open spec fn well_formed(self) -> bool {
        self != BorrowState::Shared(0)
    }

    /// Whether `event` may happen in this state. A read-only view is recorded unless
    /// the read/write view is, and while the count has room; the read/write view is
    /// recorded only where no view is; a view is given up where one of its kind is
    /// recorded.
    pub open spec fn spec_admits(self, event: BorrowEvent) -> bool {
        match event {
            BorrowEvent::AcquireShared => self.writers() == 0 && self.readers() < usize::MAX,
            BorrowEvent::ReleaseShared => self.readers() >= 1,
            BorrowEvent::AcquireExclusive => self == BorrowState::Unborrowed,
            BorrowEvent::ReleaseExclusive => self == BorrowState::Exclusive,
        }
    }

    /// The state that `event` leads to from this one.
    pub open spec fn after(self, event: BorrowEvent) -> BorrowState {
        match event {
            BorrowEvent::AcquireShared => BorrowState::Shared((self.readers() + 1) as usize),
            BorrowEvent::ReleaseShared => if self.readers() <= 1 {
                BorrowState::Unborrowed
            } else {
                BorrowState::Shared((self.readers() - 1) as usize)
            },
            BorrowEvent::AcquireExclusive => BorrowState::Exclusive,
            BorrowEvent::ReleaseExclusive => BorrowState::Unborrowed,
        }
    }

    /// The state that the events lead to, one after the other, starting in this
    /// state.
    pub open spec fn after_all(self, events: Seq<BorrowEvent>) -> BorrowState
        decreases events.len(),
    {
        if events.len() == 0 {
            self
        } else {
            self.after_all(events.drop_last()).after(events.last())
        }
    }

    /// Whether the events may happen one after the other, starting in this state:
    /// each may happen in the state that the earlier ones lead to.
    pub open spec fn admits_all(self, events: Seq<BorrowEvent>) -> bool
        decreases events.len(),
    {
        events.len() == 0 || (self.admits_all(events.drop_last()) && self.after_all(
            events.drop_last(),
        ).spec_admits(events.last()))
    }

    /// Whether `event` may happen in this state.
    #[verifier::when_used_as_spec(spec_admits)]
    pub fn admits(self, event: BorrowEvent) -> (admitted: bool)
        ensures
            admitted == self.spec_admits(event),
    {
        match event {
            BorrowEvent::AcquireShared => match self {
                BorrowState::Unborrowed => true,
                BorrowState::Shared(count) => count < usize::MAX,
                BorrowState::Exclusive => false,
            },
            BorrowEvent::ReleaseShared => match self {
                BorrowState::Shared(count) => count >= 1,
                _ => false,
            },
            BorrowEvent::AcquireExclusive => match self {
                BorrowState::Unborrowed => true,
                _ => false,
            },
            BorrowEvent::ReleaseExclusive => match self {
                BorrowState::Exclusive => true,
                _ => false,
            },
        }
    }

    /// The state that `event` leads to from this one.
    pub fn record(self, event: BorrowEvent) -> (next: BorrowState)
        requires
            self.admits(event),
        ensures
            next == self.after(event),
    {
        match event {
            BorrowEvent::AcquireShared => match self {
                BorrowState::Shared(count) => BorrowState::Shared(count + 1),
                _ => BorrowState::Shared(1),
            },
            BorrowEvent::ReleaseShared => match self {
                BorrowState::Shared(count) => if count <= 1 {
                    BorrowState::Unborrowed
                } else {
                    BorrowState::Shared(count - 1)
                },
                _ => BorrowState::Unborrowed,
            },
            BorrowEvent::AcquireExclusive => BorrowState::Exclusive,
            BorrowEvent::ReleaseExclusive => BorrowState::Unborrowed,
        }
    }
}

/// The number of views of each kind that are live after `events`: those recorded
/// less those given up.
pub open spec fn live_shared(events: Seq<BorrowEvent>) -> int
    decreases events.len(),
{
    if events.len() == 0 {
        0
    } else {
        live_shared(events.drop_last()) + match events.last() {
            BorrowEvent::AcquireShared => 1int,
            BorrowEvent::ReleaseShared => -1int,
            _ => 0int,
        }
    }
}

/// The number of read/write views that are live after `events`: those recorded less
/// those given up.
pub open spec fn live_exclusive(events: Seq<BorrowEvent>) -> int
    decreases events.len(),
{
    if events.len() == 0 {
        0
    } else {
        live_exclusive(events.drop_last()) + match events.last() {
            BorrowEvent::AcquireExclusive => 1int,
            BorrowEvent::ReleaseExclusive => -1int,
            _ => 0int,
        }
    }
}

/// The stable raw form of an owner `P`, issued together with an auxiliary value of
/// type `X`.
///
/// It stands where the non-null address of the pointee stands. It is made by
/// [`DataSource::into_raw_data`] and [`CloneableDataSource::clone_raw`] only, and
/// taken apart by [`DataSource::from_raw_data`] only, so that each handle is turned
/// back into an owner at most once.
pub struct RawData<P, X> {
    owner: P,
    borrow: BorrowState,
    issued: Ghost<X>,
}

/// The raw form of the data source `D`.
pub type Raw<D> = RawData<D, <D as DataSource>::Auxiliary>;

impl<P, X> RawData<P, X> {
    /// The owner that this handle is the raw form of.
    pub closed spec fn owner(&self) -> P {
        self.owner
    }

    /// The views recorded on this handle.
    pub closed spec fn borrow(&self) -> BorrowState {
        self.borrow
    }

    /// The auxiliary value that was issued together with this handle.
    pub closed spec fn issued(&self) -> X {
        self.issued@
    }

    /// A handle for `owner` with no view recorded, issued with `aux`.
    fn park(owner: P, aux: Ghost<X>) -> (data: Self)
        ensures
            data.owner() == owner,
            data.borrow() == BorrowState::Unborrowed,
            data.issued() == aux@,
    {
        RawData { owner, borrow: BorrowState::Unborrowed, issued: aux }
    }

    /// The owner that was parked in this handle.
    fn unpark(self) -> (owner: P)
        ensures
            owner == self.owner(),
    {
        self.owner
    }

    /// The views recorded on this handle.
    pub fn borrow_state(&self) -> (state: BorrowState)
        ensures
            state == self.borrow(),
    {
        self.borrow
    }

    /// Records what is done with a view of the pointee.
    pub fn record(&mut self, event: BorrowEvent)
        requires
            old(self).borrow().admits(event),
        ensures
            final(self).borrow() == old(self).borrow().after(event),
            final(self).owner() == old(self).owner(),
            final(self).issued() == old(self).issued(),
    {
        self.borrow = self.borrow.record(event);
    }

    /// Records one more read-only view.
    pub fn acquire_shared(&mut self)
        requires
            old(self).borrow().admits(BorrowEvent::AcquireShared),
        ensures
            final(self).borrow() == old(self).borrow().after(BorrowEvent::AcquireShared),
            final(self).owner() == old(self).owner(),
            final(self).issued() == old(self).issued(),
    {
        self.record(BorrowEvent::AcquireShared);
    }

    /// Gives up one read-only view.
    pub fn release_shared(&mut self)
        requires
            old(self).borrow().admits(BorrowEvent::ReleaseShared),
        ensures
            final(self).borrow() == old(self).borrow().after(BorrowEvent::ReleaseShared),
            final(self).owner() == old(self).owner(),
            final(self).issued() == old(self).issued(),
    {
        self.record(BorrowEvent::ReleaseShared);
    }

    /// Records the read/write view.
    pub fn acquire_exclusive(&mut self)
        requires
            old(self).borrow().admits(BorrowEvent::AcquireExclusive),
        ensures
            final(self).borrow() == BorrowState::Exclusive,
            final(self).owner() == old(self).owner(),
            final(self).issued() == old(self).issued(),
    {
        self.record(BorrowEvent::AcquireExclusive);
    }

    /// Gives up the read/write view.
    pub fn release_exclusive(&mut self)
        requires
            old(self).borrow().admits(BorrowEvent::ReleaseExclusive),
        ensures
            final(self).borrow() == BorrowState::Unborrowed,
            final(self).owner() == old(self).owner(),
            final(self).issued() == old(self).issued(),
    {
        self.record(BorrowEvent::ReleaseExclusive);
    }
}

/// An owner that can be converted into a raw form and back, and read through it.
pub trait DataSource: Sized {
    /// What is read through the raw form.
    type Data: ?Sized;

    /// What the owner holds besides, which the pointee is not reached through.
    type Auxiliary;

    /// Whether `data` is the pointee that `owner` gives access to.
    spec fn points_to(owner: &Self, data: &Self::Data) -> bool;

    /// Splits the owner into its raw form and its auxiliary value.
    fn into_raw_data(self) -> (raw: (Raw<Self>, Self::Auxiliary))
        ensures
            raw.0.owner() == self,
            raw.0.borrow() == BorrowState::Unborrowed,
            raw.0.issued() == raw.1,
    ;

    /// Puts the owner back together.
    fn from_raw_data(data: Raw<Self>, aux: Self::Auxiliary) -> (owner: Self)
        requires
            data.borrow() == BorrowState::Unborrowed,
            data.issued() == aux,
        ensures
            owner == data.owner(),
    ;

    /// A read-only view of the pointee.
    fn as_ref<'a>(data: &'a Raw<Self>) -> (view: &'a Self::Data)
        requires
            data.borrow().writers() == 0,
        ensures
            Self::points_to(&data.owner(), view),
    ;
}

/// A data source whose pointee can be written through the raw form.
pub trait MutableDataSource: DataSource {
    /// A read/write view of the pointee.
    fn as_mut<'a>(data: &'a mut Raw<Self>) -> (view: &'a mut Self::Data)
        requires
            old(data).borrow().readers() == 0,
        ensures
            Self::points_to(&old(data).owner(), &*view),
            Self::points_to(&final(data).owner(), &*final(view)),
            final(data).borrow() == old(data).borrow(),
            final(data).issued() == old(data).issued(),
    ;
}

/// A data source whose raw form can be duplicated: both handles reach the same
/// pointee, and each is put back into an owner of its own.
pub trait CloneableDataSource: DataSource {
    /// A second raw form of the same pointee.
    fn clone_raw(data: &Raw<Self>, aux: &Self::Auxiliary) -> (clone: (Raw<Self>, Self::Auxiliary))
        requires
            data.borrow() == BorrowState::Unborrowed,
            data.issued() == *aux,
        ensures
            clone.0.owner() == data.owner(),
            clone.0.borrow() == BorrowState::Unborrowed,
            clone.0.issued() == clone.1,
    ;
}

impl DataSource for () {
    type Data = ();

    type Auxiliary = ();

    open spec fn points_to(owner: &Self, data: &()) -> bool {
        true
    }

    fn into_raw_data(self) -> (raw: (Raw<Self>, ())) {
        (RawData::park((), Ghost(())), ())
    }

    fn from_raw_data(data: Raw<Self>, _aux: ()) -> (owner: Self) {
        data.unpark()
    }

    fn as_ref<'a>(data: &'a Raw<Self>) -> (view: &'a ()) {
        &data.owner
    }
}

impl MutableDataSource for () {
    fn as_mut<'a>(data: &'a mut Raw<Self>) -> (view: &'a mut ()) {
        &mut data.owner
    }
}

impl CloneableDataSource for () {
    fn clone_raw(data: &Raw<Self>, _aux: &()) -> (clone: (Raw<Self>, ())) {
        (RawData::park((), Ghost(())), ())
    }
}

impl<T: ?Sized> DataSource for Box<T> {
    type Data = T;

    type Auxiliary = ();

    open spec fn points_to(owner: &Self, data: &T) -> bool {
        &**owner == data
    }

    fn into_raw_data(self) -> (raw: (Raw<Self>, ())) {
        (RawData::park(self, Ghost(())), ())
    }

    fn from_raw_data(data: Raw<Self>, _aux: ()) -> (owner: Self) {
        data.unpark()
    }

    fn as_ref<'a>(data: &'a Raw<Self>) -> (view: &'a T) {
        &*data.owner
    }
}

impl<T: ?Sized> MutableDataSource for Box<T> {
    fn as_mut<'a>(data: &'a mut Raw<Self>) -> (view: &'a mut T) {
        &mut *data.owner
    }
}

impl<T> DataSource for Vec<T> {
    type Data = [T];

    type Auxiliary = usize;

    open spec fn points_to(owner: &Self, data: &[T]) -> bool {
        owner@ == data@
    }

    fn into_raw_data(self) -> (raw: (Raw<Self>, usize))
        ensures
            raw.1 >= self@.len(),
    {
        let capacity = vec_capacity(&self);
        (RawData::park(self, Ghost(capacity)), capacity)
    }

    fn from_raw_data(data: Raw<Self>, _aux: usize) -> (owner: Self) {
        data.unpark()
    }

    fn as_ref<'a>(data: &'a Raw<Self>) -> (view: &'a [T]) {
        data.owner.as_slice()
    }
}

impl<T> MutableDataSource for Vec<T> {
    fn as_mut<'a>(data: &'a mut Raw<Self>) -> (view: &'a mut [T]) {
        data.owner.as_mut_slice()
    }
}

impl DataSource for String {
    type Data = str;

    type Auxiliary = usize;

    open spec fn points_to(owner: &Self, data: &str) -> bool {
        owner@ == data@
    }

    fn into_raw_data(self) -> (raw: (Raw<Self>, usize))
        ensures
            raw.1 >= encode_utf8(self@).len(),
    {
        let capacity = string_capacity(&self);
        (RawData::park(self, Ghost(capacity)), capacity)
    }

    fn from_raw_data(data: Raw<Self>, _aux: usize) -> (owner: Self) {
        data.unpark()
    }

    fn as_ref<'a>(data: &'a Raw<Self>) -> (view: &'a str) {
        data.owner.as_str()
    }
}

impl MutableDataSource for String {
    fn as_mut<'a>(data: &'a mut Raw<Self>) -> (view: &'a mut str) {
        data.owner.as_mut_str()
    }
}

impl<'d, T: ?Sized> DataSource for &'d mut T {
    type Data = T;

    type Auxiliary = PhantomData<&'d mut T>;

    open spec fn points_to(owner: &Self, data: &T) -> bool {
        &**owner == data
    }

    fn into_raw_data(self) -> (raw: (Raw<Self>, PhantomData<&'d mut T>)) {
        let data = RawData::park(self, Ghost(PhantomData));
        (data, PhantomData)
    }

    fn from_raw_data(data: Raw<Self>, _aux: PhantomData<&'d mut T>) -> (owner: Self) {
        data.unpark()
    }

    fn as_ref<'a>(data: &'a Raw<Self>) -> (view: &'a T) {
        &*data.owner
    }
}

impl<'d, T: ?Sized> MutableDataSource for &'d mut T {
    fn as_mut<'a>(data: &'a mut Raw<Self>) -> (view: &'a mut T)
        ensures
            &*final(final(data).owner()) == &*final(old(data).owner()),
    {
        &mut *data.owner
    }
}

impl<T: ?Sized> DataSource for Rc<T> {
    type Data = T;

    type Auxiliary = ();

    open spec fn points_to(owner: &Self, data: &T) -> bool {
        &**owner == data
    }

    fn into_raw_data(self) -> (raw: (Raw<Self>, ())) {
        (RawData::park(self, Ghost(())), ())
    }

    fn from_raw_data(data: Raw<Self>, _aux: ()) -> (owner: Self) {
        data.unpark()
    }

    fn as_ref<'a>(data: &'a Raw<Self>) -> (view: &'a T) {
        &*data.owner
    }
}

impl<T: ?Sized> CloneableDataSource for Rc<T> {
    fn clone_raw(data: &Raw<Self>, _aux: &()) -> (clone: (Raw<Self>, ())) {
        (RawData::park(rc_clone(&data.owner), Ghost(())), ())
    }
}

impl<T: ?Sized> DataSource for Arc<T> {
    type Data = T;

    type Auxiliary = ();

    open spec fn points_to(owner: &Self, data: &T) -> bool {
        &**owner == data
    }

    fn into_raw_data(self) -> (raw: (Raw<Self>, ())) {
        (RawData::park(self, Ghost(())), ())
    }

    fn from_raw_data(data: Raw<Self>, _aux: ()) -> (owner: Self) {
        data.unpark()
    }

    fn as_ref<'a>(data: &'a Raw<Self>) -> (view: &'a T) {
        &*data.owner
    }
}

impl<T: ?Sized> CloneableDataSource for Arc<T> {
    fn clone_raw(data: &Raw<Self>, _aux: &()) -> (clone: (Raw<Self>, ())) {
        (RawData::park(arc_clone(&data.owner), Ghost(())), ())
    }
}

impl<'d, T: ?Sized> DataSource for &'d T {
    type Data = T;

    type Auxiliary = PhantomData<&'d ()>;

    open spec fn points_to(owner: &Self, data: &T) -> bool {
        &**owner == data
    }

    fn into_raw_data(self) -> (raw: (Raw<Self>, PhantomData<&'d ()>)) {
        (RawData::park(self, Ghost(PhantomData)), PhantomData)
    }

    fn from_raw_data(data: Raw<Self>, _aux: PhantomData<&'d ()>) -> (owner: Self) {
        data.unpark()
    }

    fn as_ref<'a>(data: &'a Raw<Self>) -> (view: &'a T) {
        data.owner
    }
}

impl<'d, T: ?Sized> CloneableDataSource for &'d T {
    fn clone_raw(data: &Raw<Self>, _aux: &PhantomData<&'d ()>) -> (clone: (
        Raw<Self>,
        PhantomData<&'d ()>,
    )) {
        (RawData::park(data.owner, Ghost(PhantomData)), PhantomData)
    }
}

/// Putting back what was split gives the owner that was split, and the handle and
/// the auxiliary value that the split gave are always fit to be put back.
pub proof fn from_raw_undoes_into_raw<D: DataSource>(owner: D, raw: (Raw<D>, D::Auxiliary), back: D)
    requires
        call_ensures(D::into_raw_data, (owner,), raw),
        call_ensures(D::from_raw_data, (raw.0, raw.1), back),
    ensures
        call_requires(D::from_raw_data, (raw.0, raw.1)),
        back == owner,
{
}

/// A handle and its clone are each fit to be put back, in either order, and both
/// give the owner that the first handle is the raw form of: the two owners reach the
/// same pointee.
pub proof fn clone_is_put_back_like_the_first<D: CloneableDataSource>(
    data: Raw<D>,
    aux: D::Auxiliary,
    clone: (Raw<D>, D::Auxiliary),
    first: D,
    second: D,
)
    requires
        data.borrow() == BorrowState::Unborrowed,
        data.issued() == aux,
        call_ensures(D::clone_raw, (&data, &aux), clone),
        call_ensures(D::from_raw_data, (data, aux), first),
        call_ensures(D::from_raw_data, (clone.0, clone.1), second),
    ensures
        call_requires(D::clone_raw, (&data, &aux)),
        call_requires(D::from_raw_data, (data, aux)),
        call_requires(D::from_raw_data, (clone.0, clone.1)),
        first == data.owner(),
        second == data.owner(),
        forall|pointee: &D::Data| D::points_to(&first, pointee) == D::points_to(&second, pointee),
{
}

/// Whatever is done with the views of a handle that starts without one, as far as
/// each step is admitted: the state counts the views that are live, a read/write view
/// is never live beside another view of either kind, and shared views are counted
/// from one.
pub proof fn exclusive_view_is_alone(events: Seq<BorrowEvent>)
    requires
        BorrowState::Unborrowed.admits_all(events),
    ensures
        ({
            let state = BorrowState::Unborrowed.after_all(events);
            &&& state.well_formed()
            &&& state.readers() == live_shared(events)
            &&& state.writers() == live_exclusive(events)
            &&& live_exclusive(events) <= 1
            &&& live_exclusive(events) == 1 ==> live_shared(events) == 0
        }),
    decreases events.len(),
{
    if events.len() > 0 {
        exclusive_view_is_alone(events.drop_last());
    }
}

/// `Vec::capacity`: the number of elements that the vector has room for, which is
/// never less than its length.
#[verifier::external_body]
fn vec_capacity<T>(v: &Vec<T>) -> (capacity: usize)
    ensures
        capacity >= v@.len(),
{
    v.capacity()
}

/// `String::capacity`: the number of bytes that the string has room for, which is
/// never less than its length in bytes.
#[verifier::external_body]
fn string_capacity(s: &String) -> (capacity: usize)
    ensures
        capacity >= encode_utf8(s@).len(),
{
    s.capacity()
}

/// `Rc::clone`: another pointer to the same allocation, so that what it points to is
/// what the first points to.
#[verifier::external_body]
fn rc_clone<T: ?Sized>(rc: &Rc<T>) -> (clone: Rc<T>)
    ensures
        clone == *rc,
{
    Rc::clone(rc)
}

/// `Arc::clone`: another pointer to the same allocation, so that what it points to is
/// what the first points to.
#[verifier::external_body]
fn arc_clone<T: ?Sized>(arc: &Arc<T>) -> (clone: Arc<T>)
    ensures
        clone == *arc,
{
    Arc::clone(arc)
}

/// `String::as_mut_str`: the whole string as a mutable string slice; what is written
/// through the slice is what the string holds afterwards.
pub assume_specification[ String::as_mut_str ](s: &mut String) -> (slice: &mut str)
    ensures
        slice@ == old(s)@,
        final(slice)@ == final(s)@,
;

} // verus!
