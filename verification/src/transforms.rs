//! Transformations: a header (type and reference) with lines, each of which
//! changes the amount of a resource at one location. Moving a resource and
//! manufacturing one from its dependencies both add such lines.
//!
//! Moving, manufacturing and placing an order alternate reads and writes of
//! the database with decisions. The decisions stand here as machines: the
//! application asks a machine for its pending [`Request`], carries it out,
//! and hands the [`Reply`] to [`ResMoveAuto::step`], [`ResManufacture::step`]
//! or [`PlaceOrder::step`], until the machine is done. The module [`budget`]
//! shows that, on dependency data without cycles, manufactures and orders
//! end.
use vstd::prelude::*;

use crate::Catalog;
use crate::locations::{ResLocationBasic, ResLocationResolved};

pub mod budget;

verus! {

/// A transformation as listed among all transformations: its type, its
/// reference and its number of lines.
pub struct Transform {
    pub id: u64,
    pub type_id: String,
    pub refer: String,
    pub lines: u64,
}

impl Transform {
    pub fn new(id: u64, type_id: String, refer: String, lines: u64) -> (t: Self)
        ensures
            t.id == id,
            t.type_id == type_id,
            t.refer == refer,
            t.lines == lines,
    {
        Transform { id, type_id, refer, lines }
    }
}

/// A line of a transformation: the amount it changes at a resource location.
pub struct TransformLine<'a, N> {
    pub id: u64,
    pub amount: N,
    pub location: ResLocationResolved<'a, N>,
}

impl<'a, N> TransformLine<'a, N> {
    /// A line from the columns of its row; the location's unit text is empty
    /// until it is resolved from the catalog.
    pub fn new(
        id: u64,
        amount: N,
        loc_id: u64,
        loc_amount: N,
        lat: N,
        lon: N,
        radius: u64,
        unit_id: u64,
        res_name: String,
    ) -> (line: Self)
        ensures
            line.id == id,
            line.amount == amount,
            line.location.id == loc_id,
            line.location.amount == loc_amount,
            line.location.radius == radius,
            line.location.lat == lat,
            line.location.lon == lon,
            line.location.unit_id == unit_id,
            line.location.unit@ == Seq::<char>::empty(),
            line.location.res_name == res_name,
    {
        let location = ResLocationResolved::new(loc_id, loc_amount, radius, lat, lon, unit_id, res_name);
        TransformLine { id, amount, location }
    }

    /// Whether `self` is `row` with its location's unit text resolved
    /// from `catalog`.
    pub open spec fn resolved_from(self, row: TransformLine<'a, N>, catalog: Catalog) -> bool {
        &&& self.id == row.id
        &&& self.amount == row.amount
        &&& self.location.resolved_from(row.location, catalog)
    }
}

/// A transformation with the name of its type and its lines.
pub struct TransformResolved<'a, N> {
    pub id: u64,
    pub type_id: u64,
    pub kind_name: &'a str,
    pub refer: String,
    pub lines: Vec<TransformLine<'a, N>>,
}

impl<'a, N> TransformResolved<'a, N> {
    /// A transformation header read from the database: no type name and no
    /// lines yet.
    pub fn new(id: u64, type_id: u64, refer: String) -> (t: Self)
        ensures
            t.id == id,
            t.type_id == type_id,
            t.kind_name@ == Seq::<char>::empty(),
            t.refer == refer,
            t.lines@ == Seq::<TransformLine<'a, N>>::empty(),
    {
        proof {
            reveal_strlit("");
        }
        TransformResolved { id, type_id, kind_name: "", refer, lines: Vec::new() }
    }
}

/// The first of the headers that the lookup of one transformation returned,
/// with the name of its type taken from the catalog.
pub fn get_transform_unresolved<'a, N>(
    fetched: Vec<TransformResolved<'a, N>>,
    catalog: &'a Catalog,
) -> (transform: TransformResolved<'a, N>)
    requires
        fetched@.len() > 0,
        catalog.has_transform_type(fetched@[0].type_id),
    ensures
        transform.id == fetched@[0].id,
        transform.type_id == fetched@[0].type_id,
        transform.kind_name@ == catalog.transform_type_text(fetched@[0].type_id),
        transform.refer == fetched@[0].refer,
        transform.lines == fetched@[0].lines,
{
    let mut fetched = fetched;
    let mut transform = fetched.remove(0);
    transform.kind_name = catalog.transform_type_name(transform.type_id);
    transform
}

/// A transformation header together with its lines, each line's unit text
/// taken from the catalog.
pub fn get_transform<'a, N>(
    header: TransformResolved<'a, N>,
    lines: Vec<TransformLine<'a, N>>,
    catalog: &'a Catalog,
) -> (transform: TransformResolved<'a, N>)
    requires
        forall|i: int|
            0 <= i < lines@.len() ==> catalog.has_unit(#[trigger] lines@[i].location.unit_id),
    ensures
        transform.id == header.id,
        transform.type_id == header.type_id,
        transform.kind_name == header.kind_name,
        transform.refer == header.refer,
        transform.lines@.len() == lines@.len(),
        forall|i: int|
            0 <= i < lines@.len() ==> #[trigger] transform.lines@[i].resolved_from(
                lines@[i],
                *catalog,
            ),
{
    let mut transform = header;
    transform.lines = lines;
    let n = transform.lines.len();
    for i in 0..n
        invariant
            n == lines@.len(),
            transform.id == header.id,
            transform.type_id == header.type_id,
            transform.kind_name == header.kind_name,
            transform.refer == header.refer,
            transform.lines@.len() == n,
            forall|j: int| 0 <= j < n ==> catalog.has_unit(#[trigger] lines@[j].location.unit_id),
            forall|j: int|
                0 <= j < i ==> #[trigger] transform.lines@[j].resolved_from(lines@[j], *catalog),
            forall|j: int| i <= j < n ==> #[trigger] transform.lines@[j] == lines@[j],
    {
        transform.lines[i].location.set_unit_from_cache(catalog);
    }
    transform
}

/// What a move or a manufacture needs the application to do next.
pub enum Request<N> {
    /// Read the dependencies of resource `res_id`: the resources it is made
    /// of, each with the amount needed.
    FetchDependencies { res_id: u64 },
    /// Read the locations of resource `res_id` that hold at least `amount`.
    FetchAvailableLocations { res_id: u64, amount: N },
    /// Add a line to transformation `transform_id` that changes the amount at
    /// resource location `location` by `amount`: taken away when `withdraw`
    /// holds, added otherwise.
    AddLine { transform_id: u64, amount: N, withdraw: bool, location: u64 },
}

/// What the application found when it carried out a request.
pub enum Reply<N> {
    Dependencies(Result<Vec<(u64, N)>, String>),
    AvailableLocations(Result<Vec<ResLocationBasic<N>>, String>),
    LineAdded(Result<(), String>),
}

/// Whether `reply` is of the kind that answers `request`.
pub open spec fn answers<N>(request: Request<N>, reply: Reply<N>) -> bool {
    match request {
        Request::FetchDependencies { .. } => reply is Dependencies,
        Request::FetchAvailableLocations { .. } => reply is AvailableLocations,
        Request::AddLine { .. } => reply is LineAdded,
    }
}

/// The error that `reply` reports, if it reports one.
pub open spec fn failure<N>(reply: Reply<N>) -> Option<String> {
    match reply {
        Reply::Dependencies(Err(e)) => Some(e),
        Reply::AvailableLocations(Err(e)) => Some(e),
        Reply::LineAdded(Err(e)) => Some(e),
        _ => None,
    }
}

/// A machine after a step: still going, or finished with a result.
pub enum Progress<M, R> {
    Next(M),
    Done(R),
}

/// Where a move stands.
pub enum MovePhase {
    /// Waiting for the locations that hold enough of the resource.
    AwaitLocations,
    /// Waiting for the line that takes the amount away at `source`.
    AwaitWithdrawal { source: u64 },
    /// Waiting for the line that adds the amount at the destination.
    AwaitDeposit { source: u64 },
}

/// Moving `amount` of resource `res_id` to location `destination` within
/// transformation `transform_id`: the amount is taken from the first location
/// that holds enough of it and added at the destination. The move finishes
/// with the location it took from, with `None` when no location holds
/// enough, or with the first error met.
pub struct ResMoveAuto<N> {
    pub res_id: u64,
    pub amount: N,
    pub destination: u64,
    pub transform_id: u64,
    pub phase: MovePhase,
}

impl<N: Copy> ResMoveAuto<N> {
    /// A move that has not started yet.
    pub open spec fn start(res_id: u64, amount: N, destination: u64, transform_id: u64) -> Self {
        ResMoveAuto { res_id, amount, destination, transform_id, phase: MovePhase::AwaitLocations }
    }

    /// The request the move waits on.
    pub open spec fn pending(self) -> Request<N> {
        match self.phase {
            MovePhase::AwaitLocations => Request::FetchAvailableLocations {
                res_id: self.res_id,
                amount: self.amount,
            },
            MovePhase::AwaitWithdrawal { source } => Request::AddLine {
                transform_id: self.transform_id,
                amount: self.amount,
                withdraw: true,
                location: source,
            },
            MovePhase::AwaitDeposit { source } => Request::AddLine {
                transform_id: self.transform_id,
                amount: self.amount,
                withdraw: false,
                location: self.destination,
            },
        }
    }

    /// What the move does with a reply. A reply that does not answer the
    /// pending request leaves the move as it is.
    pub open spec fn next(self, reply: Reply<N>) -> Progress<Self, Result<Option<u64>, String>> {
        match self.phase {
            MovePhase::AwaitLocations => match reply {
                Reply::AvailableLocations(Err(e)) => Progress::Done(Err(e)),
                Reply::AvailableLocations(Ok(locations)) => if locations@.len() == 0 {
                    Progress::Done(Ok(None))
                } else {
                    Progress::Next(
                        ResMoveAuto {
                            phase: MovePhase::AwaitWithdrawal { source: locations@[0].id },
                            ..self
                        },
                    )
                },
                _ => Progress::Next(self),
            },
            MovePhase::AwaitWithdrawal { source } => match reply {
                Reply::LineAdded(Err(e)) => Progress::Done(Err(e)),
                Reply::LineAdded(Ok(())) => Progress::Next(
                    ResMoveAuto { phase: MovePhase::AwaitDeposit { source }, ..self },
                ),
                _ => Progress::Next(self),
            },
            MovePhase::AwaitDeposit { source } => match reply {
                Reply::LineAdded(Err(e)) => Progress::Done(Err(e)),
                Reply::LineAdded(Ok(())) => Progress::Done(Ok(Some(source))),
                _ => Progress::Next(self),
            },
        }
    }

    pub fn new(res_id: u64, amount: N, destination: u64, transform_id: u64) -> (m: Self)
        ensures
            m == Self::start(res_id, amount, destination, transform_id),
    {
        ResMoveAuto { res_id, amount, destination, transform_id, phase: MovePhase::AwaitLocations }
    }

    /// The request the move waits on.
    pub fn request(&self) -> (r: Request<N>)
        ensures
            r == self.pending(),
    {
        match self.phase {
            MovePhase::AwaitLocations => Request::FetchAvailableLocations {
                res_id: self.res_id,
                amount: self.amount,
            },
            MovePhase::AwaitWithdrawal { source } => Request::AddLine {
                transform_id: self.transform_id,
                amount: self.amount,
                withdraw: true,
                location: source,
            },
            MovePhase::AwaitDeposit { source } => Request::AddLine {
                transform_id: self.transform_id,
                amount: self.amount,
                withdraw: false,
                location: self.destination,
            },
        }
    }

    /// Hands the move the reply to its pending request.
    pub fn step(self, reply: Reply<N>) -> (p: Progress<Self, Result<Option<u64>, String>>)
        ensures
            p == self.next(reply),
    {
        match self.phase {
            MovePhase::AwaitLocations => match reply {
                Reply::AvailableLocations(Err(e)) => Progress::Done(Err(e)),
                Reply::AvailableLocations(Ok(locations)) => {
                    if locations.len() == 0 {
                        Progress::Done(Ok(None))
                    } else {
                        let source = locations[0].id;
                        Progress::Next(
                            ResMoveAuto {
                                res_id: self.res_id,
                                amount: self.amount,
                                destination: self.destination,
                                transform_id: self.transform_id,
                                phase: MovePhase::AwaitWithdrawal { source },
                            },
                        )
                    }
                },
                _ => Progress::Next(self),
            },
            MovePhase::AwaitWithdrawal { source } => match reply {
                Reply::LineAdded(Err(e)) => Progress::Done(Err(e)),
                Reply::LineAdded(Ok(())) => Progress::Next(
                    ResMoveAuto {
                        res_id: self.res_id,
                        amount: self.amount,
                        destination: self.destination,
                        transform_id: self.transform_id,
                        phase: MovePhase::AwaitDeposit { source },
                    },
                ),
                _ => Progress::Next(self),
            },
            MovePhase::AwaitDeposit { source } => match reply {
                Reply::LineAdded(Err(e)) => Progress::Done(Err(e)),
                Reply::LineAdded(Ok(())) => Progress::Done(Ok(Some(source))),
                _ => Progress::Next(self),
            },
        }
    }
}

/// A move takes its amount away at the first location that holds enough of
/// the resource, then adds the same amount at the destination, both within
/// its transformation, and reports the location it took from. When no
/// location holds enough, it adds no line and reports none.
pub proof fn lemma_move_takes_then_gives<N: Copy>(
    res_id: u64,
    amount: N,
    destination: u64,
    transform_id: u64,
    locations: Vec<ResLocationBasic<N>>,
)
    ensures
        ({
            let m0 = ResMoveAuto::start(res_id, amount, destination, transform_id);
            let source = locations@[0].id;
            &&& m0.pending() == Request::FetchAvailableLocations::<N> { res_id, amount }
            &&& locations@.len() == 0 ==> m0.next(Reply::AvailableLocations(Ok(locations)))
                == Progress::<ResMoveAuto<N>, Result<Option<u64>, String>>::Done(Ok(None))
            &&& locations@.len() > 0 ==> {
                &&& m0.next(Reply::AvailableLocations(Ok(locations))) matches Progress::Next(m1)
                &&& m1.pending() == Request::AddLine::<N> {
                    transform_id,
                    amount,
                    withdraw: true,
                    location: source,
                }
                &&& m1.next(Reply::LineAdded(Ok(()))) matches Progress::Next(m2)
                &&& m2.pending() == Request::AddLine::<N> {
                    transform_id,
                    amount,
                    withdraw: false,
                    location: destination,
                }
                &&& m2.next(Reply::LineAdded(Ok(())))
                    == Progress::<ResMoveAuto<N>, Result<Option<u64>, String>>::Done(Ok(Some(source)))
            }
        }),
{
}

/// Where a manufacture stands, for the resource it is making now.
pub enum ManufacturePhase {
    /// Waiting for the dependencies of the resource being made.
    AwaitDependencies,
    /// Moving the current dependency to the destination.
    Moving,
    /// Waiting for the line that uses up the current dependency: its amount
    /// taken away at the destination.
    AwaitConsume,
    /// Waiting for the line that adds the amount being made at the
    /// destination, once every dependency is used up.
    AwaitProduce,
}

/// One resource being made: its id, the amount to make, its dependencies
/// (each a resource and the amount of it needed) and the position of the
/// dependency being resolved.
pub struct Frame<N> {
    pub res_id: u64,
    pub amount: N,
    pub deps: Vec<(u64, N)>,
    pub index: usize,
}

/// Manufacturing `amount` of a resource at location `destination` within
/// transformation `transform_id`, resolving its dependencies recursively.
///
/// The dependencies of the resource are read; none means there is not
/// enough to make it from. Each dependency in turn is brought to the
/// destination: moved from the first location that holds enough of it, or,
/// when no location does, manufactured there itself in the same way. Once a
/// dependency is at the destination its amount is used up there. When every
/// dependency is used up, the amount being made is added at the destination,
/// and the manufacture goes back to the resource that needed it, if any. The
/// first error met ends the manufacture.
///
/// `frames` holds the resources being made, the outermost first: each frame
/// below the top waits for its current dependency, which the frame above it
/// makes.
pub struct ResManufacture<N> {
    pub destination: u64,
    pub transform_id: u64,
    pub frames: Vec<Frame<N>>,
    pub mover: ResMoveAuto<N>,
    pub phase: ManufacturePhase,
}

/// Whether frame `sub` makes the dependency that frame `f` waits for.
pub open spec fn waits_on<N>(f: Frame<N>, sub: Frame<N>) -> bool {
    &&& f.index < f.deps@.len()
    &&& sub.res_id == f.deps@[f.index as int].0
    &&& sub.amount == f.deps@[f.index as int].1
}

/// Changing only the dependencies or position of the top frame keeps every
/// frame waiting for the one above it.
proof fn lemma_top_update_keeps_links<N>(old: Seq<Frame<N>>, new: Seq<Frame<N>>)
    requires
        old.len() > 0,
        new.len() == old.len(),
        forall|k: int| 0 <= k < old.len() - 1 ==> #[trigger] new[k] == old[k],
        new.last().res_id == old.last().res_id,
        new.last().amount == old.last().amount,
        forall|k: int| 0 <= k < old.len() - 1 ==> waits_on(#[trigger] old[k], old[k + 1]),
    ensures
        forall|k: int| 0 <= k < new.len() - 1 ==> waits_on(#[trigger] new[k], new[k + 1]),
{
    assert forall|k: int| 0 <= k < new.len() - 1 implies waits_on(#[trigger] new[k], new[k + 1]) by {
        assert(waits_on(old[k], old[k + 1]));
        if k + 1 < old.len() - 1 {
            assert(new[k + 1] == old[k + 1]);
        }
    }
}

impl<N: Copy> ResManufacture<N> {
    /// The resource being made now.
    pub open spec fn top(self) -> Frame<N> {
        self.frames@.last()
    }

    /// Whether `self` is a manufacture that has not started yet.
    pub open spec fn starts(self, res_id: u64, amount: N, destination: u64, transform_id: u64) -> bool {
        &&& self.frames@.len() == 1
        &&& self.top().res_id == res_id
        &&& self.top().amount == amount
        &&& self.destination == destination
        &&& self.transform_id == transform_id
        &&& self.phase == ManufacturePhase::AwaitDependencies
    }

    /// The state of a manufacture that its steps keep: each frame below the
    /// top waits for its current dependency, which the frame above makes;
    /// while moving, the move is that of the current dependency, to the
    /// destination, within the same transformation.
    pub open spec fn wf(self) -> bool {
        &&& self.frames@.len() > 0
        &&& forall|k: int|
            0 <= k < self.frames@.len() - 1 ==> waits_on(#[trigger] self.frames@[k], self.frames@[k + 1])
        &&& match self.phase {
            ManufacturePhase::AwaitDependencies => true,
            ManufacturePhase::Moving => {
                &&& self.top().index < self.top().deps@.len()
                &&& self.mover.res_id == self.top().deps@[self.top().index as int].0
                &&& self.mover.amount == self.top().deps@[self.top().index as int].1
                &&& self.mover.destination == self.destination
                &&& self.mover.transform_id == self.transform_id
            },
            _ => self.top().index < self.top().deps@.len(),
        }
    }

    /// The request for the locations that hold enough of dependency `index`
    /// of the resource being made now.
    pub open spec fn dependency_request(self, index: int) -> Request<N> {
        Request::FetchAvailableLocations {
            res_id: self.top().deps@[index].0,
            amount: self.top().deps@[index].1,
        }
    }

    /// The request the manufacture waits on.
    pub open spec fn pending(self) -> Request<N> {
        match self.phase {
            ManufacturePhase::AwaitDependencies => Request::FetchDependencies {
                res_id: self.top().res_id,
            },
            ManufacturePhase::Moving => self.mover.pending(),
            ManufacturePhase::AwaitConsume => Request::AddLine {
                transform_id: self.transform_id,
                amount: self.top().deps@[self.top().index as int].1,
                withdraw: true,
                location: self.destination,
            },
            ManufacturePhase::AwaitProduce => Request::AddLine {
                transform_id: self.transform_id,
                amount: self.top().amount,
                withdraw: false,
                location: self.destination,
            },
        }
    }

    /// Whether `next` makes for the same destination within the same
    /// transformation as `self`.
    pub open spec fn keeps_target(self, next: Self) -> bool {
        next.destination == self.destination && next.transform_id == self.transform_id
    }

    /// Whether `next` has the frames `frames` and moves dependency `index`
    /// of its top frame.
    pub open spec fn moves_dependency(self, next: Self, frames: Seq<Frame<N>>, index: int) -> bool {
        &&& self.keeps_target(next)
        &&& next.frames@ == frames
        &&& next.phase == ManufacturePhase::Moving
        &&& next.mover == ResMoveAuto::start(
            next.top().deps@[index].0,
            next.top().deps@[index].1,
            self.destination,
            self.transform_id,
        )
    }

    /// Whether the manufacture may go from `self` to `p` on `reply`. A reply
    /// that does not answer the pending request leaves the manufacture as it
    /// is.
    pub open spec fn steps_to(self, reply: Reply<N>, p: Progress<Self, Result<(), String>>) -> bool {
        let last = self.frames@.len() - 1;
        let top = self.top();
        match self.phase {
            ManufacturePhase::AwaitDependencies => match reply {
                Reply::Dependencies(Err(e)) => p == Progress::<Self, Result<(), String>>::Done(Err(e)),
                Reply::Dependencies(Ok(deps)) => if deps@.len() == 0 {
                    p matches Progress::Done(Err(e)) && e@ == "Not enough resources."@
                } else {
                    p matches Progress::Next(next) && self.moves_dependency(
                        next,
                        self.frames@.update(last, Frame { deps, index: 0, ..top }),
                        0,
                    )
                },
                _ => p == Progress::<Self, Result<(), String>>::Next(self),
            },
            ManufacturePhase::Moving => match self.mover.next(reply) {
                Progress::Next(mover) => p == Progress::<Self, Result<(), String>>::Next(
                    ResManufacture { mover, ..self },
                ),
                Progress::Done(Err(e)) => p == Progress::<Self, Result<(), String>>::Done(Err(e)),
                Progress::Done(Ok(None)) => p matches Progress::Next(next) && {
                    &&& self.keeps_target(next)
                    &&& next.frames@.drop_last() == self.frames@
                    &&& next.frames@.len() == self.frames@.len() + 1
                    &&& next.top().res_id == top.deps@[top.index as int].0
                    &&& next.top().amount == top.deps@[top.index as int].1
                    &&& next.top().index == 0
                    &&& next.phase == ManufacturePhase::AwaitDependencies
                },
                Progress::Done(Ok(Some(_))) => p matches Progress::Next(next) && {
                    &&& self.keeps_target(next)
                    &&& next.frames == self.frames
                    &&& next.phase == ManufacturePhase::AwaitConsume
                },
            },
            ManufacturePhase::AwaitConsume => match reply {
                Reply::LineAdded(Err(e)) => p == Progress::<Self, Result<(), String>>::Done(Err(e)),
                Reply::LineAdded(Ok(())) => if top.index + 1 < top.deps@.len() {
                    p matches Progress::Next(next) && self.moves_dependency(
                        next,
                        self.frames@.update(last, Frame { index: (top.index + 1) as usize, ..top }),
                        top.index + 1,
                    )
                } else {
                    p == Progress::<Self, Result<(), String>>::Next(
                        ResManufacture { phase: ManufacturePhase::AwaitProduce, ..self },
                    )
                },
                _ => p == Progress::<Self, Result<(), String>>::Next(self),
            },
            ManufacturePhase::AwaitProduce => match reply {
                Reply::LineAdded(Err(e)) => p == Progress::<Self, Result<(), String>>::Done(Err(e)),
                Reply::LineAdded(Ok(())) => if self.frames@.len() == 1 {
                    p == Progress::<Self, Result<(), String>>::Done(Ok(()))
                } else {
                    p matches Progress::Next(next) && {
                        &&& self.keeps_target(next)
                        &&& next.frames@ == self.frames@.drop_last()
                        &&& next.phase == ManufacturePhase::AwaitConsume
                    }
                },
                _ => p == Progress::<Self, Result<(), String>>::Next(self),
            },
        }
    }

    pub fn new(res_id: u64, amount: N, destination: u64, transform_id: u64) -> (m: Self)
        ensures
            m.starts(res_id, amount, destination, transform_id),
            m.wf(),
    {
        let mut frames = Vec::new();
        frames.push(Frame { res_id, amount, deps: Vec::new(), index: 0 });
        ResManufacture {
            destination,
            transform_id,
            frames,
            mover: ResMoveAuto::new(res_id, amount, destination, transform_id),
            phase: ManufacturePhase::AwaitDependencies,
        }
    }

    /// The request the manufacture waits on.
    pub fn request(&self) -> (r: Request<N>)
        requires
            self.wf(),
        ensures
            r == self.pending(),
    {
        let last = self.frames.len() - 1;
        match self.phase {
            ManufacturePhase::AwaitDependencies => Request::FetchDependencies {
                res_id: self.frames[last].res_id,
            },
            ManufacturePhase::Moving => self.mover.request(),
            ManufacturePhase::AwaitConsume => {
                let index = self.frames[last].index;
                Request::AddLine {
                    transform_id: self.transform_id,
                    amount: self.frames[last].deps[index].1,
                    withdraw: true,
                    location: self.destination,
                }
            },
            ManufacturePhase::AwaitProduce => Request::AddLine {
                transform_id: self.transform_id,
                amount: self.frames[last].amount,
                withdraw: false,
                location: self.destination,
            },
        }
    }

    /// Hands the manufacture the reply to its pending request.
    pub fn step(self, reply: Reply<N>) -> (p: Progress<Self, Result<(), String>>)
        requires
            self.wf(),
        ensures
            self.steps_to(reply, p),
            p matches Progress::Next(m) ==> m.wf(),
    {
        let ghost old_frames = self.frames@;
        let ResManufacture { destination, transform_id, frames, mover, phase } = self;
        let mut frames = frames;
        let last = frames.len() - 1;
        match phase {
            ManufacturePhase::AwaitDependencies => match reply {
                Reply::Dependencies(Err(e)) => Progress::Done(Err(e)),
                Reply::Dependencies(Ok(deps)) => {
                    if deps.len() == 0 {
                        Progress::Done(Err("Not enough resources.".to_owned()))
                    } else {
                        let (dep_id, dep_amount) = deps[0];
                        let top = frames.pop().unwrap();
                        frames.push(Frame { res_id: top.res_id, amount: top.amount, deps, index: 0 });
                        assert(frames@ =~= old_frames.update(
                            last as int,
                            Frame { deps: frames@[last as int].deps, index: 0, ..old_frames[last as int] },
                        ));
                        proof {
                            lemma_top_update_keeps_links(old_frames, frames@);
                        }
                        let mover = ResMoveAuto::new(dep_id, dep_amount, destination, transform_id);
                        Progress::Next(ResManufacture { destination, transform_id, frames, mover, phase: ManufacturePhase::Moving })
                    }
                },
                reply => Progress::Next(ResManufacture { destination, transform_id, frames, mover, phase: ManufacturePhase::AwaitDependencies }),
            },
            ManufacturePhase::Moving => {
                let index = frames[last].index;
                let (dep_id, dep_amount) = frames[last].deps[index];
                match mover.step(reply) {
                    Progress::Next(mover) => Progress::Next(ResManufacture { destination, transform_id, frames, mover, phase: ManufacturePhase::Moving }),
                    Progress::Done(Err(e)) => Progress::Done(Err(e)),
                    Progress::Done(Ok(None)) => {
                        frames.push(Frame { res_id: dep_id, amount: dep_amount, deps: Vec::new(), index: 0 });
                        assert(frames@.drop_last() =~= old_frames);
                        assert forall|k: int| 0 <= k < frames@.len() - 1 implies waits_on(
                            #[trigger] frames@[k],
                            frames@[k + 1],
                        ) by {
                            assert(frames@[k] == old_frames[k]);
                            if k + 1 < old_frames.len() {
                                assert(waits_on(old_frames[k], old_frames[k + 1]));
                            }
                        }
                        let mover = ResMoveAuto::new(dep_id, dep_amount, destination, transform_id);
                        Progress::Next(ResManufacture { destination, transform_id, frames, mover, phase: ManufacturePhase::AwaitDependencies })
                    },
                    Progress::Done(Ok(Some(_))) => {
                        let mover = ResMoveAuto::new(dep_id, dep_amount, destination, transform_id);
                        Progress::Next(ResManufacture { destination, transform_id, frames, mover, phase: ManufacturePhase::AwaitConsume })
                    },
                }
            },
            ManufacturePhase::AwaitConsume => match reply {
                Reply::LineAdded(Err(e)) => Progress::Done(Err(e)),
                Reply::LineAdded(Ok(())) => {
                    let n = frames[last].deps.len();
                    let next = frames[last].index + 1;
                    if next < n {
                        let (dep_id, dep_amount) = frames[last].deps[next];
                        let top = frames.pop().unwrap();
                        frames.push(Frame { res_id: top.res_id, amount: top.amount, deps: top.deps, index: next });
                        assert(frames@ =~= old_frames.update(
                            last as int,
                            Frame { index: next, ..old_frames[last as int] },
                        ));
                        proof {
                            lemma_top_update_keeps_links(old_frames, frames@);
                        }
                        let mover = ResMoveAuto::new(dep_id, dep_amount, destination, transform_id);
                        Progress::Next(ResManufacture { destination, transform_id, frames, mover, phase: ManufacturePhase::Moving })
                    } else {
                        Progress::Next(ResManufacture { destination, transform_id, frames, mover, phase: ManufacturePhase::AwaitProduce })
                    }
                },
                _ => Progress::Next(ResManufacture { destination, transform_id, frames, mover, phase: ManufacturePhase::AwaitConsume }),
            },
            ManufacturePhase::AwaitProduce => match reply {
                Reply::LineAdded(Err(e)) => Progress::Done(Err(e)),
                Reply::LineAdded(Ok(())) => {
                    if last == 0 {
                        Progress::Done(Ok(()))
                    } else {
                        let _made = frames.pop();
                        assert(frames@ =~= old_frames.drop_last());
                        assert forall|k: int| 0 <= k < frames@.len() - 1 implies waits_on(
                            #[trigger] frames@[k],
                            frames@[k + 1],
                        ) by {
                            assert(waits_on(old_frames[k], old_frames[k + 1]));
                        }
                        assert(waits_on(old_frames[last - 1], old_frames[last as int]));
                        Progress::Next(ResManufacture { destination, transform_id, frames, mover, phase: ManufacturePhase::AwaitConsume })
                    }
                },
                _ => Progress::Next(ResManufacture { destination, transform_id, frames, mover, phase: ManufacturePhase::AwaitProduce }),
            },
        }
    }
}

/// Every line that a manufacture asks for belongs to the transformation it
/// was started for. Outside of a move, every line is at the destination: a
/// moved dependency is taken from its source by the move alone, and used up
/// and produced at the destination. No step changes the transformation or
/// the destination.
pub proof fn lemma_manufacture_lines<N: Copy>(
    m: ResManufacture<N>,
    reply: Reply<N>,
    p: Progress<ResManufacture<N>, Result<(), String>>,
)
    requires
        m.wf(),
        m.steps_to(reply, p),
    ensures
        m.pending() is AddLine ==> m.pending()->transform_id == m.transform_id,
        m.pending() is AddLine && m.phase != ManufacturePhase::Moving ==> m.pending()->location
            == m.destination,
        m.pending() is AddLine && !m.pending()->withdraw ==> m.pending()->location == m.destination,
        p matches Progress::Next(next) ==> m.keeps_target(next),
{
}

/// A manufacture of a resource that depends on nothing fails: there is not
/// enough to make it from.
pub proof fn lemma_manufacture_without_dependencies<N: Copy>(
    m: ResManufacture<N>,
    deps: Vec<(u64, N)>,
    p: Progress<ResManufacture<N>, Result<(), String>>,
)
    requires
        m.phase == ManufacturePhase::AwaitDependencies,
        deps@.len() == 0,
        m.steps_to(Reply::Dependencies(Ok(deps)), p),
    ensures
        (p matches Progress::Done(Err(e)) && e@ == "Not enough resources."@),
{
}

/// A manufacture starts with the first of the dependencies it read: it asks
/// for the locations that hold enough of it.
pub proof fn lemma_manufacture_starts_with_first_dependency<N: Copy>(
    m: ResManufacture<N>,
    deps: Vec<(u64, N)>,
    p: Progress<ResManufacture<N>, Result<(), String>>,
)
    requires
        m.wf(),
        m.phase == ManufacturePhase::AwaitDependencies,
        deps@.len() > 0,
        m.steps_to(Reply::Dependencies(Ok(deps)), p),
    ensures
        (p matches Progress::Next(next) && next.top().deps == deps && next.top().index == 0
            && next.pending() == next.dependency_request(0)),
{
}

/// A dependency that was moved to the destination is used up there, not
/// taken from its source a second time.
pub proof fn lemma_manufacture_uses_moved_dependency<N: Copy>(
    m: ResManufacture<N>,
    reply: Reply<N>,
    source: u64,
    p: Progress<ResManufacture<N>, Result<(), String>>,
)
    requires
        m.wf(),
        m.phase == ManufacturePhase::Moving,
        m.mover.next(reply) == Progress::<ResMoveAuto<N>, Result<Option<u64>, String>>::Done(
            Ok(Some(source)),
        ),
        m.steps_to(reply, p),
    ensures
        (p matches Progress::Next(next) && next.frames == m.frames && next.pending()
            == Request::AddLine::<N> {
            transform_id: m.transform_id,
            amount: m.top().deps@[m.top().index as int].1,
            withdraw: true,
            location: m.destination,
        }),
{
}

/// Once a dependency is used up, a manufacture goes on with the next
/// dependency in the order they were listed; after the last one it adds the
/// amount being made at the destination, once.
pub proof fn lemma_manufacture_next_dependency<N: Copy>(
    m: ResManufacture<N>,
    p: Progress<ResManufacture<N>, Result<(), String>>,
)
    requires
        m.wf(),
        m.phase == ManufacturePhase::AwaitConsume,
        m.steps_to(Reply::LineAdded(Ok(())), p),
    ensures
        m.top().index + 1 < m.top().deps@.len() ==> (p matches Progress::Next(next)
            && next.frames@.drop_last() == m.frames@.drop_last() && next.top().index
            == m.top().index + 1 && next.pending() == next.dependency_request(m.top().index + 1)),
        m.top().index + 1 == m.top().deps@.len() ==> (p matches Progress::Next(next) && next.frames
            == m.frames && next.pending() == Request::AddLine::<N> {
            transform_id: m.transform_id,
            amount: m.top().amount,
            withdraw: false,
            location: m.destination,
        }),
{
    assert(m.top().deps@.len() == m.top().deps.len());
    if m.top().index + 1 < m.top().deps@.len() {
        let next = p->Next_0;
        assert(next.frames@.drop_last() =~= m.frames@.drop_last());
    }
}

/// A dependency that no location holds enough of is manufactured itself,
/// with every dependency still to resolve kept: the manufacture puts a frame
/// for that dependency and its amount on top of the ones it had and asks for
/// its dependencies.
pub proof fn lemma_manufacture_resolves_missing_dependency<N: Copy>(
    m: ResManufacture<N>,
    reply: Reply<N>,
    p: Progress<ResManufacture<N>, Result<(), String>>,
)
    requires
        m.wf(),
        m.phase == ManufacturePhase::Moving,
        m.mover.next(reply) == Progress::<ResMoveAuto<N>, Result<Option<u64>, String>>::Done(
            Ok(None),
        ),
        m.steps_to(reply, p),
    ensures
        (p matches Progress::Next(next) && next.frames@.drop_last() == m.frames@
            && waits_on(m.top(), next.top()) && next.pending() == Request::FetchDependencies::<N> {
            res_id: m.top().deps@[m.top().index as int].0,
        }),
{
}

/// Once a dependency has been manufactured, the manufacture goes back to the
/// resource that needed it and uses the dependency up at the destination;
/// once the outermost resource is made, the manufacture succeeds.
pub proof fn lemma_manufacture_resumes_after_dependency<N: Copy>(
    m: ResManufacture<N>,
    p: Progress<ResManufacture<N>, Result<(), String>>,
)
    requires
        m.wf(),
        m.phase == ManufacturePhase::AwaitProduce,
        m.steps_to(Reply::LineAdded(Ok(())), p),
    ensures
        m.frames@.len() == 1 ==> p == Progress::<ResManufacture<N>, Result<(), String>>::Done(Ok(())),
        m.frames@.len() > 1 ==> (p matches Progress::Next(next) && next.frames@
            == m.frames@.drop_last() && next.pending() == Request::AddLine::<N> {
            transform_id: m.transform_id,
            amount: next.top().deps@[next.top().index as int].1,
            withdraw: true,
            location: m.destination,
        }),
{
}

/// Where an order stands.
pub enum OrderPhase {
    /// Waiting for the locations that hold enough of the resource.
    AwaitAvailability,
    /// Manufacturing the resource at the destination, as no location held
    /// enough of it.
    Manufacturing,
    /// Moving the resource to the destination.
    Moving,
}

/// Placing an order for `amount` of resource `res_id` at location
/// `destination`, within transformation `transform_id`.
///
/// The locations that hold enough of the resource are read; an error there
/// ends the order with that error. When none holds enough, the resource is
/// first manufactured at the destination. Either way it is then moved to the
/// destination, and the order is reported delivered: what the manufacture and
/// the move returned is not held against it. The result names the location
/// the resource was moved from, or none when the move found no location or
/// failed.
pub struct PlaceOrder<N> {
    pub res_id: u64,
    pub amount: N,
    pub destination: u64,
    pub transform_id: u64,
    pub maker: ResManufacture<N>,
    pub mover: ResMoveAuto<N>,
    pub phase: OrderPhase,
}

impl<N: Copy> PlaceOrder<N> {
    /// The state an order's steps keep: the manufacture or the move under way
    /// is that of the ordered resource and amount, to the destination, within
    /// the order's transformation.
    pub open spec fn wf(self) -> bool {
        match self.phase {
            OrderPhase::AwaitAvailability => true,
            OrderPhase::Manufacturing => {
                &&& self.maker.wf()
                &&& self.maker.destination == self.destination
                &&& self.maker.transform_id == self.transform_id
            },
            OrderPhase::Moving => {
                &&& self.mover.res_id == self.res_id
                &&& self.mover.amount == self.amount
                &&& self.mover.destination == self.destination
                &&& self.mover.transform_id == self.transform_id
            },
        }
    }

    /// Whether `self` is an order that has not started yet.
    pub open spec fn starts(self, res_id: u64, amount: N, destination: u64, transform_id: u64) -> bool {
        &&& self.res_id == res_id
        &&& self.amount == amount
        &&& self.destination == destination
        &&& self.transform_id == transform_id
        &&& self.phase == OrderPhase::AwaitAvailability
    }

    /// The request the order waits on.
    pub open spec fn pending(self) -> Request<N> {
        match self.phase {
            OrderPhase::AwaitAvailability => Request::FetchAvailableLocations {
                res_id: self.res_id,
                amount: self.amount,
            },
            OrderPhase::Manufacturing => self.maker.pending(),
            OrderPhase::Moving => self.mover.pending(),
        }
    }

    /// Whether `next` is the same order in phase `phase`.
    pub open spec fn same_order(self, next: Self, phase: OrderPhase) -> bool {
        &&& next.res_id == self.res_id
        &&& next.amount == self.amount
        &&& next.destination == self.destination
        &&& next.transform_id == self.transform_id
        &&& next.phase == phase
    }

    /// Whether `next` is the same order, about to move the ordered resource
    /// to the destination.
    pub open spec fn starts_move(self, next: Self) -> bool {
        &&& self.same_order(next, OrderPhase::Moving)
        &&& next.mover == ResMoveAuto::start(
            self.res_id,
            self.amount,
            self.destination,
            self.transform_id,
        )
    }

    /// Whether the order may go from `self` to `p` on `reply`. A reply that
    /// does not answer the pending request leaves the order as it is.
    pub open spec fn steps_to(self, reply: Reply<N>, p: Progress<Self, Result<Option<u64>, String>>) -> bool {
        match self.phase {
            OrderPhase::AwaitAvailability => match reply {
                Reply::AvailableLocations(Err(e)) => p == Progress::<Self, Result<Option<u64>, String>>::Done(
                    Err(e),
                ),
                Reply::AvailableLocations(Ok(locations)) => if locations@.len() == 0 {
                    p matches Progress::Next(next) && self.same_order(next, OrderPhase::Manufacturing)
                        && next.maker.starts(self.res_id, self.amount, self.destination, self.transform_id)
                } else {
                    p matches Progress::Next(next) && self.starts_move(next)
                },
                _ => p == Progress::<Self, Result<Option<u64>, String>>::Next(self),
            },
            OrderPhase::Manufacturing => match p {
                Progress::Next(next) => if next.phase == OrderPhase::Moving {
                    &&& self.starts_move(next)
                    &&& exists|r: Result<(), String>| self.maker.steps_to(reply, Progress::Done(r))
                } else {
                    &&& self.same_order(next, OrderPhase::Manufacturing)
                    &&& next.mover == self.mover
                    &&& self.maker.steps_to(reply, Progress::Next(next.maker))
                },
                Progress::Done(_) => false,
            },
            OrderPhase::Moving => match self.mover.next(reply) {
                Progress::Next(mover) => p == Progress::<Self, Result<Option<u64>, String>>::Next(
                    PlaceOrder { mover, ..self },
                ),
                Progress::Done(Err(_)) => p == Progress::<Self, Result<Option<u64>, String>>::Done(
                    Ok(None),
                ),
                Progress::Done(Ok(source)) => p == Progress::<Self, Result<Option<u64>, String>>::Done(
                    Ok(source),
                ),
            },
        }
    }

    pub fn new(res_id: u64, amount: N, destination: u64, transform_id: u64) -> (o: Self)
        ensures
            o.starts(res_id, amount, destination, transform_id),
            o.wf(),
    {
        PlaceOrder {
            res_id,
            amount,
            destination,
            transform_id,
            maker: ResManufacture::new(res_id, amount, destination, transform_id),
            mover: ResMoveAuto::new(res_id, amount, destination, transform_id),
            phase: OrderPhase::AwaitAvailability,
        }
    }

    /// The request the order waits on.
    pub fn request(&self) -> (r: Request<N>)
        requires
            self.wf(),
        ensures
            r == self.pending(),
    {
        match self.phase {
            OrderPhase::AwaitAvailability => Request::FetchAvailableLocations {
                res_id: self.res_id,
                amount: self.amount,
            },
            OrderPhase::Manufacturing => self.maker.request(),
            OrderPhase::Moving => self.mover.request(),
        }
    }

    /// Hands the order the reply to its pending request.
    pub fn step(self, reply: Reply<N>) -> (p: Progress<Self, Result<Option<u64>, String>>)
        requires
            self.wf(),
        ensures
            self.steps_to(reply, p),
            p matches Progress::Next(o) ==> o.wf(),
    {
        let PlaceOrder { res_id, amount, destination, transform_id, maker, mover, phase } = self;
        match phase {
            OrderPhase::AwaitAvailability => match reply {
                Reply::AvailableLocations(Err(e)) => Progress::Done(Err(e)),
                Reply::AvailableLocations(Ok(locations)) => {
                    if locations.len() == 0 {
                        let maker = ResManufacture::new(res_id, amount, destination, transform_id);
                        Progress::Next(
                            PlaceOrder { res_id, amount, destination, transform_id, maker, mover, phase: OrderPhase::Manufacturing },
                        )
                    } else {
                        let mover = ResMoveAuto::new(res_id, amount, destination, transform_id);
                        Progress::Next(
                            PlaceOrder { res_id, amount, destination, transform_id, maker, mover, phase: OrderPhase::Moving },
                        )
                    }
                },
                reply => Progress::Next(
                    PlaceOrder { res_id, amount, destination, transform_id, maker, mover, phase: OrderPhase::AwaitAvailability },
                ),
            },
            OrderPhase::Manufacturing => match maker.step(reply) {
                Progress::Next(maker) => Progress::Next(
                    PlaceOrder { res_id, amount, destination, transform_id, maker, mover, phase: OrderPhase::Manufacturing },
                ),
                Progress::Done(made) => {
                    proof {
                        assert(self.maker.steps_to(reply, Progress::Done(made)));
                    }
                    let maker = ResManufacture::new(res_id, amount, destination, transform_id);
                    let mover = ResMoveAuto::new(res_id, amount, destination, transform_id);
                    Progress::Next(
                        PlaceOrder { res_id, amount, destination, transform_id, maker, mover, phase: OrderPhase::Moving },
                    )
                },
            },
            OrderPhase::Moving => match mover.step(reply) {
                Progress::Next(mover) => Progress::Next(
                    PlaceOrder { res_id, amount, destination, transform_id, maker, mover, phase: OrderPhase::Moving },
                ),
                Progress::Done(Err(_)) => Progress::Done(Ok(None)),
                Progress::Done(Ok(source)) => Progress::Done(Ok(source)),
            },
        }
    }
}

/// Once the locations that hold enough of the resource are known, an order
/// goes to the move when there are some, and to manufacturing the resource
/// at the destination when there are none.
pub proof fn lemma_order_moves_or_manufactures<N: Copy>(
    o: PlaceOrder<N>,
    locations: Vec<ResLocationBasic<N>>,
    p: Progress<PlaceOrder<N>, Result<Option<u64>, String>>,
)
    requires
        o.phase == OrderPhase::AwaitAvailability,
        o.steps_to(Reply::AvailableLocations(Ok(locations)), p),
    ensures
        locations@.len() > 0 ==> (p matches Progress::Next(next) && next.pending()
            == Request::FetchAvailableLocations::<N> { res_id: o.res_id, amount: o.amount }
            && next.phase == OrderPhase::Moving),
        locations@.len() == 0 ==> (p matches Progress::Next(next) && next.pending()
            == Request::FetchDependencies::<N> { res_id: o.res_id }
            && next.phase == OrderPhase::Manufacturing),
{
}

/// When the manufacture of an order ends, with success or not, the order
/// goes on to move the ordered resource to the destination.
pub proof fn lemma_order_moves_after_manufacture<N: Copy>(
    o: PlaceOrder<N>,
    reply: Reply<N>,
    made: Result<(), String>,
    p: Progress<PlaceOrder<N>, Result<Option<u64>, String>>,
)
    requires
        o.wf(),
        o.phase == OrderPhase::Manufacturing,
        o.maker.steps_to(reply, Progress::Done(made)),
        o.steps_to(reply, p),
    ensures
        (p matches Progress::Next(next) && next.phase == OrderPhase::Moving
            && next.pending() == Request::FetchAvailableLocations::<N> { res_id: o.res_id, amount: o.amount }),
{
    lemma_manufacture_ends_or_goes_on(o.maker, reply, made);
}

/// A manufacture step on one reply either ends the manufacture or goes on
/// with it, never both.
proof fn lemma_manufacture_ends_or_goes_on<N: Copy>(
    m: ResManufacture<N>,
    reply: Reply<N>,
    made: Result<(), String>,
)
    requires
        m.steps_to(reply, Progress::Done(made)),
    ensures
        forall|next: ResManufacture<N>| !#[trigger] m.steps_to(reply, Progress::Next(next)),
{
}

/// Once the locations that hold enough of the resource are known, an order
/// no longer fails: it is reported delivered, whatever the manufacture and
/// the move return.
pub proof fn lemma_order_reported_delivered<N: Copy>(
    o: PlaceOrder<N>,
    reply: Reply<N>,
    p: Progress<PlaceOrder<N>, Result<Option<u64>, String>>,
)
    requires
        o.phase != OrderPhase::AwaitAvailability,
        o.steps_to(reply, p),
    ensures
        p matches Progress::Done(r) ==> r is Ok,
{
}

/// A move fails with the error of any read or line it asks for, and
/// reports a location only after the line that adds the amount at the
/// destination was added, following the line that took it away there.
pub proof fn lemma_move_fails_on_errors<N: Copy>(m: ResMoveAuto<N>, reply: Reply<N>, e: String, source: u64)
    ensures
        answers(m.pending(), reply) && failure(reply) == Some(e) ==> (m.next(reply)
            == Progress::<ResMoveAuto<N>, Result<Option<u64>, String>>::Done(Err(e))),
        m.next(reply) == Progress::<ResMoveAuto<N>, Result<Option<u64>, String>>::Done(Ok(Some(source)))
            ==> (m.phase == (MovePhase::AwaitDeposit { source }) && (reply matches Reply::LineAdded(Ok(_)))),
        m.next(reply) == Progress::<ResMoveAuto<N>, Result<Option<u64>, String>>::Done(Ok(None))
            ==> (m.phase == MovePhase::AwaitLocations && (reply matches Reply::AvailableLocations(Ok(l))
            && l@.len() == 0)),
        m.phase == (MovePhase::AwaitWithdrawal { source }) && (reply matches Reply::LineAdded(Ok(_)))
            ==> (m.next(reply) == Progress::<ResMoveAuto<N>, Result<Option<u64>, String>>::Next(
            (ResMoveAuto { phase: MovePhase::AwaitDeposit { source }, ..m }),
        )),
{
}

/// A manufacture fails with the error of any read or line it asks for, and
/// succeeds only when the line that adds the outermost resource at the
/// destination was added.
pub proof fn lemma_manufacture_fails_on_errors<N: Copy>(
    m: ResManufacture<N>,
    reply: Reply<N>,
    e: String,
    p: Progress<ResManufacture<N>, Result<(), String>>,
)
    requires
        m.steps_to(reply, p),
    ensures
        answers(m.pending(), reply) && failure(reply) == Some(e) ==> (p
            == Progress::<ResManufacture<N>, Result<(), String>>::Done(Err(e))),
        (p matches Progress::Done(Ok(_))) ==> (m.phase == ManufacturePhase::AwaitProduce
            && m.frames@.len() == 1 && (reply matches Reply::LineAdded(Ok(_)))),
{
}

/// An order starts to move the resource only once the manufacture it started
/// has ended, and does not end while manufacturing; until the manufacture
/// ends the order goes on with it, and waits on the manufacture's own
/// request.
pub proof fn lemma_order_follows_manufacture<N: Copy>(
    o: PlaceOrder<N>,
    reply: Reply<N>,
    next: PlaceOrder<N>,
    r: Result<Option<u64>, String>,
)
    requires
        o.phase == OrderPhase::Manufacturing,
    ensures
        o.pending() == o.maker.pending(),
        !o.steps_to(reply, Progress::Done(r)),
        o.steps_to(reply, Progress::Next(next)) ==> ((next.phase == OrderPhase::Moving) == (exists|
            made: Result<(), String>,
        | #[trigger] o.maker.steps_to(reply, Progress::Done(made)))),
        o.steps_to(reply, Progress::Next(next)) && next.phase != OrderPhase::Moving ==> (next.phase
            == OrderPhase::Manufacturing && o.maker.steps_to(reply, Progress::Next(next.maker))
            && next.pending() == next.maker.pending()),
{
    if o.steps_to(reply, Progress::Next(next)) && next.phase != OrderPhase::Moving {
        if exists|made: Result<(), String>| #[trigger] o.maker.steps_to(reply, Progress::Done(made)) {
            let made = choose|made: Result<(), String>| #[trigger] o.maker.steps_to(reply, Progress::Done(made));
            lemma_manufacture_ends_or_goes_on(o.maker, reply, made);
        }
    }
}

/// A reply that does not answer the pending request leaves a move, a
/// manufacture and an order as they were.
pub proof fn lemma_unanswered_reply_changes_nothing<N: Copy>(
    mv: ResMoveAuto<N>,
    m: ResManufacture<N>,
    o: PlaceOrder<N>,
    reply: Reply<N>,
    pm: Progress<ResManufacture<N>, Result<(), String>>,
    po: Progress<PlaceOrder<N>, Result<Option<u64>, String>>,
)
    ensures
        !answers(mv.pending(), reply) ==> mv.next(reply) == Progress::<
            ResMoveAuto<N>,
            Result<Option<u64>, String>,
        >::Next(mv),
        !answers(m.pending(), reply) && m.steps_to(reply, pm) ==> pm == Progress::<
            ResManufacture<N>,
            Result<(), String>,
        >::Next(m),
        !answers(o.pending(), reply) && o.steps_to(reply, po) ==> po == Progress::<
            PlaceOrder<N>,
            Result<Option<u64>, String>,
        >::Next(o),
{
    if !answers(o.pending(), reply) && o.steps_to(reply, po) && o.phase == OrderPhase::Manufacturing {
        assert(o.maker.steps_to(reply, Progress::Next(o.maker)));
        if let Progress::Next(next) = po {
            if next.phase == OrderPhase::Moving {
                let made = choose|made: Result<(), String>| #[trigger] o.maker.steps_to(reply, Progress::Done(made));
                lemma_manufacture_ends_or_goes_on(o.maker, reply, made);
            }
            assert(next.maker == o.maker);
            assert(next == o);
        }
    }
}

/// An order whose availability read fails ends with that error. Once moving,
/// it ends with the location the move took from, or with none when the move
/// found no location or failed, and otherwise goes on with the move.
pub proof fn lemma_order_outcome<N: Copy>(
    o: PlaceOrder<N>,
    reply: Reply<N>,
    e: String,
    source: Option<u64>,
    mv: ResMoveAuto<N>,
    p: Progress<PlaceOrder<N>, Result<Option<u64>, String>>,
)
    requires
        o.steps_to(reply, p),
    ensures
        o.phase == OrderPhase::AwaitAvailability && reply == Reply::<N>::AvailableLocations(Err(e))
            ==> p == Progress::<PlaceOrder<N>, Result<Option<u64>, String>>::Done(Err(e)),
        o.phase == OrderPhase::Moving && o.mover.next(reply) == Progress::<
            ResMoveAuto<N>,
            Result<Option<u64>, String>,
        >::Done(Ok(source)) ==> p == Progress::<PlaceOrder<N>, Result<Option<u64>, String>>::Done(
            Ok(source),
        ),
        o.phase == OrderPhase::Moving && o.mover.next(reply) == Progress::<
            ResMoveAuto<N>,
            Result<Option<u64>, String>,
        >::Done(Err(e)) ==> p == Progress::<PlaceOrder<N>, Result<Option<u64>, String>>::Done(
            Ok(None),
        ),
        o.phase == OrderPhase::Moving && o.mover.next(reply) == Progress::<
            ResMoveAuto<N>,
            Result<Option<u64>, String>,
        >::Next(mv) ==> (p matches Progress::Next(next) && next.phase == OrderPhase::Moving
            && next.mover == mv && next.res_id == o.res_id && next.amount == o.amount
            && next.destination == o.destination && next.transform_id == o.transform_id),
{
}

/// While a dependency is being moved, each step of the move is a step of the
/// manufacture, which keeps its frames.
pub proof fn lemma_manufacture_follows_move<N: Copy>(
    m: ResManufacture<N>,
    reply: Reply<N>,
    mv: ResMoveAuto<N>,
    p: Progress<ResManufacture<N>, Result<(), String>>,
)
    requires
        m.phase == ManufacturePhase::Moving,
        m.steps_to(reply, p),
    ensures
        m.mover.next(reply) == Progress::<ResMoveAuto<N>, Result<Option<u64>, String>>::Next(mv)
            ==> (p matches Progress::Next(next) && next.mover == mv && next.frames == m.frames
            && next.phase == ManufacturePhase::Moving && m.keeps_target(next)),
{
}

/// The request an order waits on: the availability of the ordered amount of
/// the resource, then that of the manufacture or the move under way.
pub proof fn lemma_order_pending<N: Copy>(o: PlaceOrder<N>)
    ensures
        o.phase == OrderPhase::AwaitAvailability ==> (o.pending() == (Request::FetchAvailableLocations::<N> {
            res_id: o.res_id,
            amount: o.amount,
        })),
        o.phase == OrderPhase::Manufacturing ==> o.pending() == o.maker.pending(),
        o.phase == OrderPhase::Moving ==> o.pending() == o.mover.pending(),
{
}

} // verus!
