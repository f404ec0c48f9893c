//! The recorder: the table of recording sessions and the steps of
//! starting and stopping a recording.
use super::steps::{
    abandoned, after_close, after_create, is_session_listing, logs, observed, purged,
    recorder_wf, records, resumed_recording, start_turn, stopped, Recorder,
};
use super::session::{
    status_view, RecordingNext, RecordingOrder, RecordingPending, RecordingSession,
    RecordingSessionView, RecordingTurn, StorageEvent, StorageFailure, StorageQuery, CHUNK_SIZE,
};
use super::text::{file_in, format_compact, format_uuid, frame, recording_file_name, Timestamp};
use crate::device::manager::{
    Answer, DeviceInfo, DeviceManager, DeviceStatus, ManagerError,
};
use crate::device::turn::Order;
use std::collections::{HashMap, HashSet};
use vstd::prelude::*;
use vstd::std_specs::hash::spec_hash_map_iter;
use vstd::std_specs::iter::IteratorSpec;
use vstd::string::StringExecFns;

verus! {

/// The recording sessions of the fleet.
pub struct RecordingManager {
    sessions: HashMap<u128, RecordingSession>,
    writers: HashSet<u128>,
    headed: HashSet<u128>,
    base_path: String,
}

impl View for RecordingManager {
    type V = Recorder;

    closed spec fn view(&self) -> Recorder {
        Recorder {
            sessions: Map::new(
                |id: u128| self.sessions@.contains_key(id),
                |id: u128| self.sessions@[id]@,
            ),
            writers: self.writers@,
            headed: self.headed@,
            base_path: self.base_path@,
        }
    }
}

impl RecordingManager {
    /// There are finitely many sessions, every session is filed under its
    /// device, and a log is open, or has its header, only for a device
    /// that has a session.
    pub open spec fn wf(&self) -> bool {
        recorder_wf(self@)
    }

    proof fn lemma_sessions_finite(&self)
        ensures
            self@.sessions.dom() == self.sessions@.dom(),
            self@.sessions.dom().finite(),
    {
        assert(self@.sessions.dom() =~= self.sessions@.dom());
    }

    /// A recorder without sessions that keeps its logs in `base_path`.
    pub fn new(base_path: String) -> (recorder: Self)
        ensures
            recorder@ == (Recorder {
                sessions: Map::empty(),
                writers: Set::empty(),
                headed: Set::empty(),
                base_path: base_path@,
            }),
            recorder.wf(),
    {
        let recorder = RecordingManager {
            sessions: HashMap::new(),
            writers: HashSet::new(),
            headed: HashSet::new(),
            base_path,
        };
        assert(recorder@.sessions =~= Map::empty());
        proof {
            recorder.lemma_sessions_finite();
        }
        recorder
    }

    /// The failure that says that `device_id` is recording already.
    fn already_recording(device_id: u128) -> (error: ManagerError)
        ensures
            error@ == crate::device::manager::ManagerErrorView::Other(
                super::steps::already_recording(device_id),
            ),
    {
        let name = format_uuid(device_id);
        ManagerError::Other(frame("Device ", name.as_str(), " is already recording"))
    }

    /// Begins a recording of `device_id` at the instant `now`.
    pub fn start_recording(
        &self,
        device_manager: &DeviceManager,
        device_id: u128,
        now: Timestamp,
    ) -> (turn: RecordingTurn)
        ensures
            turn@ == start_turn(self@, device_manager@, device_id, now),
    {
        let valid = [DeviceStatus::Running, DeviceStatus::Broadcasting];
        assert(valid@ =~= super::steps::recordable());
        match device_manager.check_device_status(device_id, valid.as_slice()) {
            Err(e) => {
                return RecordingTurn::refuse(e);
            },
            Ok(_) => {},
        }
        if self.sessions.contains_key(&device_id) {
            return RecordingTurn::refuse(Self::already_recording(device_id));
        }
        let stamp = match format_compact(now.secs, now.nanos) {
            Some(stamp) => stamp,
            None => {
                return RecordingTurn::refuse(
                    ManagerError::Other(String::from_str("Recording time is out of range")),
                );
            },
        };
        let name = recording_file_name(device_id, stamp.as_str());
        let file = file_in(self.base_path.as_str(), name.as_str());
        let device = match device_manager.get_device(device_id) {
            Ok(device) => device.info(),
            Err(e) => {
                return RecordingTurn::refuse(e);
            },
        };
        let session = RecordingSession {
            device_id,
            file_path: file.clone(),
            is_active: true,
            start_time: now,
            device_type: device.device_type,
        };
        RecordingTurn::plain(
            RecordingNext::Wait {
                pending: RecordingPending::Creating { session, device },
                query: StorageQuery::Create {
                    device_id,
                    directory: self.base_path.clone(),
                    file,
                    chunk_size: CHUNK_SIZE,
                },
            },
        )
    }

    /// What the recorder holds of the recording of `device_id`.
    pub fn get_recording_status(&self, device_id: u128) -> (status: Result<
        Option<RecordingSession>,
        ManagerError,
    >)
        ensures
            status matches Ok(session) && status_view(session) == if self@.sessions.contains_key(
                device_id,
            ) {
                Some(self@.sessions[device_id])
            } else {
                None::<RecordingSessionView>
            },
    {
        match self.sessions.get(&device_id) {
            Some(session) => Ok(Some(session.clone())),
            None => Ok(None),
        }
    }

    /// What the recorder holds of every recording.
    pub fn get_all_recording_status(&self) -> (list: Vec<RecordingSession>)
        requires
            self.wf(),
        ensures
            is_session_listing(list@.map_values(|s: RecordingSession| s@), self@.sessions),
    {
        let ghost walk = spec_hash_map_iter(&self.sessions).remaining();
        let mut list: Vec<RecordingSession> = Vec::new();
        for entry in it: self.sessions.iter()
            invariant
                it.seq() == walk,
                list@.len() == it.index(),
                forall|i: int| 0 <= i < list@.len() ==> (#[trigger] list@[i])@ == (*walk[i].1)@,
        {
            list.push(entry.1.clone());
        }
        proof {
            let views = list@.map_values(|s: RecordingSession| s@);
            assert(self@.sessions.dom() =~= self.sessions@.dom());
            assert forall|i: int| 0 <= i < views.len() implies self@.sessions.contains_key(
                #[trigger] views[i].device_id,
            ) && views[i] == self@.sessions[views[i].device_id] by {
                let key = *walk[i].0;
                assert(self.sessions@.contains_key(key));
                assert(self@.sessions.contains_key(key));
            }
            assert forall|i: int, j: int|
                0 <= i < views.len() && 0 <= j < views.len() && i != j implies #[trigger] views[i].device_id
                != #[trigger] views[j].device_id by {
                assert(self.sessions@.contains_key(*walk[i].0));
                assert(self.sessions@.contains_key(*walk[j].0));
                assert(self@.sessions.contains_key(*walk[i].0));
                assert(self@.sessions.contains_key(*walk[j].0));
                if views[i].device_id == views[j].device_id {
                    assert(walk[i] == walk[j]);
                }
            }
            assert forall|id: u128| #[trigger] self@.sessions.contains_key(id) implies exists|i: int|
                0 <= i < views.len() && #[trigger] views[i].device_id == id by {
                assert(self.sessions@.contains_key(id));
                let entry = (&id, &self.sessions@[id]);
                assert(walk.contains(entry));
                let i = choose|i: int| 0 <= i < walk.len() && walk[i] == entry;
                assert(views[i] == (*walk[i].1)@);
                assert(views[i].device_id == id);
            }
        }
        list
    }

    /// Whether the task that records `device_id` goes on.
    pub fn is_recording(&self, device_id: u128) -> (active: bool)
        ensures
            active == records(self@, device_id),
    {
        match self.sessions.get(&device_id) {
            Some(session) => session.is_active,
            None => false,
        }
    }

    /// Files `session` under its device.
    fn file(&mut self, session: RecordingSession)
        ensures
            final(self)@ == (Recorder {
                sessions: old(self)@.sessions.insert(session.device_id, session@),
                ..old(self)@
            }),
            final(self)@.sessions.dom().finite(),
    {
        let ghost filed = session@;
        self.sessions.insert(session.device_id, session);
        assert(self@.sessions =~= old(self)@.sessions.insert(filed.device_id, filed));
        proof {
            self.lemma_sessions_finite();
        }
    }

    /// The turn that announces `session` and answers with it.
    fn announce(session: RecordingSession) -> (turn: RecordingTurn)
        ensures
            turn@ == super::steps::announced(session@),
    {
        let told = session.clone();
        RecordingTurn::plain(RecordingNext::Reply(Ok(session))).with(
            RecordingOrder::Announce(told),
        )
    }

    /// A start goes on after its log was created, or not.
    fn resume_creating(
        &mut self,
        device_manager: &DeviceManager,
        session: RecordingSession,
        device: DeviceInfo,
        created: Result<(), StorageFailure>,
    ) -> (turn: RecordingTurn)
        requires
            old(self).wf(),
        ensures
            (final(self)@, turn@) == after_create(
                old(self)@,
                device_manager@,
                session@,
                device@,
                match created {
                    Ok(_) => Ok(()),
                    Err(failure) => Err(failure@),
                },
            ),
            final(self).wf(),
    {
        let device_id = session.device_id;
        match created {
            Err(StorageFailure::Directory(words)) => {
                let mut text = String::from_str("Failed to create recording directory: ");
                text.append(words.as_str());
                return RecordingTurn::refuse(ManagerError::Other(text));
            },
            Err(StorageFailure::File(words)) => {
                let mut text = String::from_str("Failed to create MCAP file: ");
                text.append(words.as_str());
                return RecordingTurn::refuse(ManagerError::Other(text));
            },
            Ok(_) => {},
        }
        if self.sessions.contains_key(&device_id) {
            return RecordingTurn::plain(
                RecordingNext::Reply(Err(Self::already_recording(device_id))),
            ).with(RecordingOrder::Discard { device_id });
        }
        let told = session.clone();
        let given = session.clone();
        let recorded = session.clone();
        self.file(session);
        self.writers.insert(device_id);
        let turn = match device_manager.get_device_handler(device_id) {
            Ok(Answer::InnerDeviceHandler(handler)) => RecordingTurn::plain(
                RecordingNext::Reply(Ok(given)),
            ).with(RecordingOrder::Announce(told)).with(
                RecordingOrder::Record { handler, session: recorded, device },
            ),
            Ok(_) => RecordingTurn::plain(
                RecordingNext::Reply(
                    Err(ManagerError::Other(String::from_str("Invalid device handler"))),
                ),
            ).with(RecordingOrder::Announce(told)),
            Err(e) => RecordingTurn::plain(RecordingNext::Reply(Err(e))).with(
                RecordingOrder::Announce(told),
            ),
        };
        proof {
            let goal = after_create(
                old(self)@,
                device_manager@,
                told@,
                device@,
                Ok::<(), super::session::StorageFailureView>(()),
            );
            assert(self@.writers =~= goal.0.writers);
            assert(self@.sessions =~= goal.0.sessions);
            assert(turn@.orders =~= goal.1.orders);
        }
        turn
    }

    /// A stop goes on after its log was closed, or not.
    fn resume_closing(session: RecordingSession, closed: Result<(), String>) -> (turn:
        RecordingTurn)
        ensures
            turn@ == after_close(
                session@,
                match closed {
                    Ok(_) => Ok(()),
                    Err(words) => Err(words@),
                },
            ),
    {
        match closed {
            Err(words) => {
                let mut text = String::from_str("Failed to close MCAP writer: ");
                text.append(words.as_str());
                RecordingTurn::refuse(ManagerError::Other(text))
            },
            Ok(_) => Self::announce(session),
        }
    }

    /// Takes up the request that stands at `pending`, now that the runtime
    /// reports `event` for its query.
    pub fn resume(
        &mut self,
        device_manager: &DeviceManager,
        pending: RecordingPending,
        event: StorageEvent,
    ) -> (turn: RecordingTurn)
        requires
            old(self).wf(),
        ensures
            (final(self)@, turn@) == resumed_recording(
                old(self)@,
                device_manager@,
                pending@,
                event@,
            ),
            final(self).wf(),
    {
        match (pending, event) {
            (RecordingPending::Creating { session, device }, StorageEvent::Created(created)) => {
                self.resume_creating(device_manager, session, device, created)
            },
            (RecordingPending::Closing { session }, StorageEvent::Closed(closed)) => {
                Self::resume_closing(session, closed)
            },
            _ => RecordingTurn::refuse(
                ManagerError::Other(
                    String::from_str("Unexpected event for the pending recording request"),
                ),
            ),
        }
    }

    /// Stops the recording of `device_id`: the session is no longer
    /// active, the task that records is woken so that it sees the stop at
    /// once, and the log, where it is open, is to be closed.
    pub fn stop_recording(&mut self, device_id: u128) -> (turn: RecordingTurn)
        requires
            old(self).wf(),
        ensures
            (final(self)@, turn@) == stopped(old(self)@, device_id),
            final(self).wf(),
    {
        let session = match self.sessions.remove(&device_id) {
            Some(session) => session,
            None => {
                assert(self@.sessions =~= old(self)@.sessions);
                proof {
                    self.lemma_sessions_finite();
                }
                let name = format_uuid(device_id);
                let mut text = String::from_str("No recording session for device ");
                text.append(name.as_str());
                return RecordingTurn::refuse(ManagerError::Other(text));
            },
        };
        assert(old(self)@.sessions.contains_key(device_id));
        assert(session@ == old(self)@.sessions[device_id]);
        let session = RecordingSession { is_active: false, ..session };
        let open = self.writers.remove(&device_id);
        let kept = session.clone();
        self.file(session);
        assert(self@.sessions =~= old(self)@.sessions.insert(device_id, kept@));
        assert(self@.writers =~= old(self)@.writers.remove(device_id));
        let turn = if open {
            RecordingTurn::plain(
                RecordingNext::Wait {
                    pending: RecordingPending::Closing { session: kept },
                    query: StorageQuery::Close { device_id },
                },
            ).with(RecordingOrder::Wake { device_id })
        } else {
            let told = kept.clone();
            RecordingTurn::plain(RecordingNext::Reply(Ok(kept))).with(
                RecordingOrder::Wake { device_id },
            ).with(RecordingOrder::Announce(told))
        };
        assert(turn@.orders =~= stopped(old(self)@, device_id).1.orders);
        turn
    }

    /// Takes note that `device_id` was deleted from the fleet: its
    /// recording, where it has one, is to end at once.
    pub fn device_deleted(&mut self, device_id: u128) -> (orders: Vec<RecordingOrder>)
        requires
            old(self).wf(),
        ensures
            (final(self)@, orders@.map_values(|o: RecordingOrder| o@)) == abandoned(
                old(self)@,
                device_id,
            ),
            final(self).wf(),
    {
        let mut orders: Vec<RecordingOrder> = Vec::new();
        match self.sessions.remove(&device_id) {
            Some(session) => {
                assert(old(self)@.sessions.contains_key(device_id));
                assert(session@ == old(self)@.sessions[device_id]);
                let session = RecordingSession { is_active: false, ..session };
                let ghost kept = session@;
                self.file(session);
                assert(self@.sessions =~= old(self)@.sessions.insert(device_id, kept));
                orders.push(RecordingOrder::Wake { device_id });
                assert(orders@.map_values(|o: RecordingOrder| o@) =~= abandoned(
                    old(self)@,
                    device_id,
                ).1);
            },
            None => {
                assert(self@.sessions =~= old(self)@.sessions);
                proof {
                    self.lemma_sessions_finite();
                }
                assert(orders@.map_values(|o: RecordingOrder| o@) =~= Seq::<
                    super::session::RecordingOrderView,
                >::empty());
            },
        }
        orders
    }

    /// Follows the manager: the runtime tells the recorder of every order
    /// of the manager that it carries out, and carries out in turn what
    /// the recorder orders. The deletion of a device ends its recording
    /// in this way.
    pub fn observe(&mut self, order: &Order) -> (orders: Vec<RecordingOrder>)
        requires
            old(self).wf(),
        ensures
            (final(self)@, orders@.map_values(|o: RecordingOrder| o@)) == observed(
                old(self)@,
                order@,
            ),
            final(self).wf(),
    {
        match order {
            Order::Abort { id, .. } => self.device_deleted(*id),
            _ => {
                let orders: Vec<RecordingOrder> = Vec::new();
                assert(orders@.map_values(|o: RecordingOrder| o@) =~= Seq::<
                    super::session::RecordingOrderView,
                >::empty());
                orders
            },
        }
    }

    /// Forgets the session and the log of `device_id`, as the task that
    /// records it does when it ends. Tells whether the log was still open
    /// and has to be dropped.
    pub fn finish_recording(&mut self, device_id: u128) -> (open: bool)
        requires
            old(self).wf(),
        ensures
            final(self)@ == purged(old(self)@, device_id),
            open == old(self)@.writers.contains(device_id),
            final(self).wf(),
    {
        self.sessions.remove(&device_id);
        self.headed.remove(&device_id);
        let open = self.writers.remove(&device_id);
        assert(self@.sessions =~= old(self)@.sessions.remove(device_id));
        proof {
            self.lemma_sessions_finite();
            assert forall|id: u128| #[trigger] self@.headed.contains(id) implies self@.sessions.contains_key(
                id,
            ) by {
                assert(old(self)@.headed.contains(id));
            }
            assert forall|id: u128| #[trigger] self@.writers.contains(id) implies self@.sessions.contains_key(
                id,
            ) by {
                assert(old(self)@.writers.contains(id));
            }
        }
        open
    }

    /// Whether the task that records `device_id` may write the records
    /// of a message.
    pub fn is_logging(&self, device_id: u128) -> (logging: bool)
        ensures
            logging == logs(self@, device_id),
    {
        self.is_recording(device_id) && self.headed.contains(&device_id)
    }

    /// Whether the log of `device_id` has got its header.
    pub fn has_header(&self, device_id: u128) -> (headed: bool)
        ensures
            headed == self@.headed.contains(device_id),
    {
        self.headed.contains(&device_id)
    }

    /// Takes note that the header of the log of `device_id` is written.
    pub(crate) fn header_written(&mut self, device_id: u128)
        requires
            old(self).wf(),
            old(self)@.sessions.contains_key(device_id),
        ensures
            final(self)@ == (Recorder {
                headed: old(self)@.headed.insert(device_id),
                ..old(self)@
            }),
            final(self).wf(),
    {
        self.headed.insert(device_id);
        assert(self@.sessions =~= old(self)@.sessions);
        proof {
            self.lemma_sessions_finite();
        }
    }
}

} // verus!
