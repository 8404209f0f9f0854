//! What holds of every session, whatever comes of its actions.

use vstd::prelude::*;

use super::session::{OperationModel, Request, SessionModel};
use super::{Action, EventModel, Step};

verus! {

/// What a session is told: what came of an action, the reading of the clock,
/// and the password of a role that is to be created.
pub struct Reply {
    pub event: EventModel,
    pub now: u128,
    pub password: Seq<char>,
}

/// A session under way, with how often its lock was taken and given back.
pub struct Progress {
    pub session: SessionModel,
    pub step: Step<Seq<char>>,
    pub taken: nat,
    pub given: nat,
}

impl Progress {
    /// The session that is asked for, before anything is done.
    pub open spec fn start(project: Seq<char>, db: Seq<char>, request: Request) -> Progress {
        let (session, step) = SessionModel::start(project, db, request);
        Progress { session, step, taken: 0, given: 0 }
    }

    /// After one more reply.
    pub open spec fn told(self, reply: Reply) -> Progress {
        let (session, step) = self.session.next(reply.event, reply.now, reply.password);
        Progress {
            session,
            step,
            taken: if self.step matches Step::Do(Action::AcquireLock { .. }) && !(reply.event
                is Failed) {
                self.taken + 1
            } else {
                self.taken
            },
            given: if self.step matches Step::Do(Action::ReleaseLock { .. }) {
                self.given + 1
            } else {
                self.given
            },
        }
    }
}

/// A session after replies.
pub open spec fn progress(start: Progress, replies: Seq<Reply>) -> Progress
    decreases replies.len(),
{
    if replies.len() == 0 {
        start
    } else {
        progress(start, replies.drop_last()).told(replies.last())
    }
}

/// Whether every reply was waited for.
pub open spec fn all_expected(start: Progress, replies: Seq<Reply>) -> bool
    decreases replies.len(),
{
    replies.len() == 0 || {
        &&& all_expected(start, replies.drop_last())
        &&& progress(start, replies.drop_last()).session.expects(replies.last().event)
    }
}

/// Whether an action has to do with a lock.
pub open spec fn on_lock(step: Step<Seq<char>>) -> bool {
    step matches Step::Do(action) && (action is AcquireLock || action is ReleaseLock)
}

/// An operation does not touch locks.
pub proof fn operation_leaves_locks(o: OperationModel, event: EventModel, now: u128)
    requires
        o.expects(event),
    ensures
        !on_lock(o.next(event, now).1),
{
}

/// What holds of a session at every moment.
spec fn sound(p: Progress) -> bool {
    let phase = p.session.phase;
    &&& p.step is Do <==> !(phase is Ended)
    &&& on_lock(p.step) ==> phase is Locking || phase is Releasing
    &&& phase is Locking ==> p.step == Step::<Seq<char>>::Do(
        Action::AcquireLock { id: p.session.id },
    )
    &&& phase is Releasing ==> p.step == Step::<Seq<char>>::Do(
        Action::ReleaseLock { id: p.session.id },
    ) && !(phase->outcome is Do)
    &&& if phase is Running || phase is Releasing {
        p.taken == 1 && p.given == 0
    } else if phase is Ended {
        p.taken == p.given <= 1
    } else {
        p.taken == 0 && p.given == 0
    }
    &&& p.session.valid()
    &&& p.session.first is Some ==> !on_lock(Step::Do(p.session.first->0))
}

proof fn sound_next(p: Progress, reply: Reply)
    requires
        sound(p),
        p.session.expects(reply.event),
    ensures
        sound(p.told(reply)),
        p.told(reply).session.id == p.session.id,
{
    if p.session.phase is Listing || p.session.phase is Running {
        operation_leaves_locks(p.session.operation, reply.event, reply.now);
    }
}

proof fn sound_always(project: Seq<char>, db: Seq<char>, request: Request, replies: Seq<Reply>)
    requires
        all_expected(Progress::start(project, db, request), replies),
    ensures
        sound(progress(Progress::start(project, db, request), replies)),
        progress(Progress::start(project, db, request), replies).session.id
            == SessionModel::start(project, db, request).0.id,
    decreases replies.len(),
{
    let start = Progress::start(project, db, request);
    if replies.len() > 0 {
        sound_always(project, db, request, replies.drop_last());
        sound_next(progress(start, replies.drop_last()), replies.last());
    }
}

/// Whatever comes of the actions, the operation runs only while its session has
/// the lock; a session that has ended has given the lock back as often as it
/// took it, which is at most once; and a session always has something to do or
/// has ended.
pub proof fn lock_is_given_back(
    project: Seq<char>,
    db: Seq<char>,
    request: Request,
    replies: Seq<Reply>,
)
    requires
        all_expected(Progress::start(project, db, request), replies),
    ensures
        ({
            let p = progress(Progress::start(project, db, request), replies);
            &&& p.session.phase is Running ==> p.taken == 1 && p.given == 0
            &&& p.session.phase is Ended ==> p.taken == p.given <= 1
            &&& p.step is Do <==> !(p.session.phase is Ended)
            &&& on_lock(p.step) ==> {
                let id = SessionModel::start(project, db, request).0.id;
                ||| p.step == Step::<Seq<char>>::Do(Action::AcquireLock { id }) && p.taken == 0
                ||| p.step == Step::<Seq<char>>::Do(Action::ReleaseLock { id }) && p.taken == 1
            }
        }),
{
    sound_always(project, db, request, replies);
}

/// When the operation of a session has ended, the lock is given back, and
/// whatever comes of that, the session ends as the operation ended.
pub proof fn session_ends_as_operation(s: SessionModel, last: Reply, release: Reply)
    requires
        s.phase is Running,
        s.expects(last.event),
        !(s.operation.next(last.event, last.now).1 is Do),
    ensures
        ({
            let (releasing, step) = s.next(last.event, last.now, last.password);
            &&& step == Step::<Seq<char>>::Do(Action::ReleaseLock { id: s.id })
            &&& releasing.next(release.event, release.now, release.password).1
                == s.operation.next(last.event, last.now).1
        }),
{
}

/// A session whose lock could not be taken ends with that error, and its
/// operation has not begun.
pub proof fn no_lock_no_operation(s: SessionModel, reply: Reply)
    requires
        s.phase is Locking,
        reply.event is Failed,
    ensures
        s.next(reply.event, reply.now, reply.password).1 == Step::<Seq<char>>::Fail(
            reply.event->Failed_0,
        ),
        s.next(reply.event, reply.now, reply.password).0.phase is Ended,
{
}

} // verus!
