use cen::frame_ring::FrameError;
use cen::frame_ring::FramePhase;
use cen::frame_ring::FrameRing;

fn whole_frame(ring: &mut FrameRing, image: usize) {
    assert_eq!(ring.start(), Ok(Some(vec![])));
    assert_eq!(ring.callbacks_done(), Ok(()));
    assert_eq!(ring.image_acquired(image), Ok(()));
    assert_eq!(ring.recorded(), Ok(image));
    assert_eq!(ring.submitted(), Ok(image));
    assert_eq!(ring.presented(), Ok(()));
}

#[test]
fn ring_needs_a_slot() {
    assert!(FrameRing::new(0).is_none());
    let ring = FrameRing::new(3).unwrap();
    assert_eq!(ring.slots(), 3);
    assert_eq!(ring.frame_index(), 0);
    assert_eq!(ring.phase(), FramePhase::Idle);
    assert!(!ring.is_in_flight(0));
    assert!(!ring.is_in_flight(2));
    assert!(!ring.is_in_flight(3));
}

#[test]
fn frame_goes_through_its_steps_in_order() {
    let mut ring = FrameRing::new(2).unwrap();
    assert_eq!(ring.start(), Ok(Some(vec![])));
    assert_eq!(ring.phase(), FramePhase::RunningCallbacks);
    assert_eq!(ring.callbacks_done(), Ok(()));
    assert_eq!(ring.phase(), FramePhase::Acquiring);
    assert_eq!(ring.image_acquired(1), Ok(()));
    assert_eq!(ring.phase(), FramePhase::Recording { image_index: 1 });
    assert_eq!(ring.recorded(), Ok(1));
    assert_eq!(ring.phase(), FramePhase::Submitting { image_index: 1 });
    assert!(!ring.is_in_flight(0));
    assert_eq!(ring.submitted(), Ok(1));
    assert_eq!(ring.phase(), FramePhase::Presenting { image_index: 1 });
    assert!(ring.is_in_flight(0));
    assert_eq!(ring.presented(), Ok(()));
    assert_eq!(ring.phase(), FramePhase::Idle);
    assert_eq!(ring.frame_index(), 1);
}

#[test]
fn frame_index_wraps_around() {
    let mut ring = FrameRing::new(3).unwrap();
    whole_frame(&mut ring, 0);
    whole_frame(&mut ring, 1);
    assert_eq!(ring.frame_index(), 2);
    whole_frame(&mut ring, 2);
    assert_eq!(ring.frame_index(), 0);
}

#[test]
fn one_more_frame_than_slots_waits_for_the_first_fence() {
    let slots = 3;
    let mut ring = FrameRing::new(slots).unwrap();
    for frame in 0..slots {
        whole_frame(&mut ring, frame);
    }
    assert!((0..slots).all(|slot| ring.is_in_flight(slot)));
    assert_eq!(ring.frame_index(), 0);
    assert_eq!(ring.start(), Ok(None));
    assert_eq!(ring.phase(), FramePhase::WaitingForFence);
    assert_eq!(ring.callbacks_done(), Err(FrameError::OutOfTurn));
    assert_eq!(ring.image_acquired(0), Err(FrameError::OutOfTurn));
    assert_eq!(ring.recorded(), Err(FrameError::OutOfTurn));
    assert_eq!(ring.submitted(), Err(FrameError::OutOfTurn));
    assert_eq!(ring.presented(), Err(FrameError::OutOfTurn));
    assert_eq!(ring.run_on_finish(1), Err(FrameError::OutOfTurn));
    assert_eq!(ring.start(), Err(FrameError::OutOfTurn));
    assert_eq!(ring.phase(), FramePhase::WaitingForFence);
    assert!(ring.is_in_flight(0));
    assert_eq!(ring.fence_signaled(), Ok(vec![]));
    assert!(!ring.is_in_flight(0));
    assert!(ring.is_in_flight(1));
    assert_eq!(ring.phase(), FramePhase::RunningCallbacks);
}

#[test]
fn single_slot_ring_waits_on_every_second_frame() {
    let mut ring = FrameRing::new(1).unwrap();
    whole_frame(&mut ring, 0);
    assert_eq!(ring.frame_index(), 0);
    assert_eq!(ring.start(), Ok(None));
    assert_eq!(ring.fence_signaled(), Ok(vec![]));
}

#[test]
fn callbacks_run_when_their_slot_comes_round_again() {
    let mut ring = FrameRing::new(2).unwrap();
    assert_eq!(ring.start(), Ok(Some(vec![])));
    assert_eq!(ring.callbacks_done(), Ok(()));
    assert_eq!(ring.image_acquired(0), Ok(()));
    assert_eq!(ring.run_on_finish(7), Ok(()));
    assert_eq!(ring.run_on_finish(9), Ok(()));
    assert_eq!(ring.recorded(), Ok(0));
    assert_eq!(ring.submitted(), Ok(0));
    assert_eq!(ring.presented(), Ok(()));
    whole_frame(&mut ring, 1);
    assert_eq!(ring.start(), Ok(None));
    assert_eq!(ring.fence_signaled(), Ok(vec![7, 9]));
    assert_eq!(ring.callbacks_done(), Ok(()));
    assert_eq!(ring.image_acquired(0), Ok(()));
    assert_eq!(ring.recorded(), Ok(0));
    assert_eq!(ring.submitted(), Ok(0));
    assert_eq!(ring.presented(), Ok(()));
    assert_eq!(ring.start(), Ok(None));
    assert_eq!(ring.fence_signaled(), Ok(vec![]));
}

#[test]
fn callbacks_are_only_taken_while_recording() {
    let mut ring = FrameRing::new(2).unwrap();
    assert_eq!(ring.run_on_finish(1), Err(FrameError::OutOfTurn));
    assert_eq!(ring.start(), Ok(Some(vec![])));
    assert_eq!(ring.run_on_finish(1), Err(FrameError::OutOfTurn));
}

#[test]
fn steps_out_of_turn_change_nothing() {
    let mut ring = FrameRing::new(2).unwrap();
    assert_eq!(ring.fence_signaled(), Err(FrameError::OutOfTurn));
    assert_eq!(ring.callbacks_done(), Err(FrameError::OutOfTurn));
    assert_eq!(ring.image_acquired(0), Err(FrameError::OutOfTurn));
    assert_eq!(ring.acquire_abandoned(), Err(FrameError::OutOfTurn));
    assert_eq!(ring.recorded(), Err(FrameError::OutOfTurn));
    assert_eq!(ring.submitted(), Err(FrameError::OutOfTurn));
    assert_eq!(ring.presented(), Err(FrameError::OutOfTurn));
    assert_eq!(ring.device_idle(), Err(FrameError::OutOfTurn));
    assert_eq!(ring.resized(2), Err(FrameError::OutOfTurn));
    assert_eq!(ring.phase(), FramePhase::Idle);
    assert_eq!(ring.frame_index(), 0);
}

#[test]
fn image_index_must_name_an_image() {
    let mut ring = FrameRing::new(2).unwrap();
    assert_eq!(ring.start(), Ok(Some(vec![])));
    assert_eq!(ring.callbacks_done(), Ok(()));
    assert_eq!(ring.image_acquired(2), Err(FrameError::NoSuchImage));
    assert_eq!(ring.phase(), FramePhase::Acquiring);
    assert_eq!(ring.image_acquired(1), Ok(()));
}

#[test]
fn abandoned_acquire_gives_the_frame_up() {
    let mut ring = FrameRing::new(2).unwrap();
    assert_eq!(ring.start(), Ok(Some(vec![])));
    assert_eq!(ring.callbacks_done(), Ok(()));
    assert_eq!(ring.acquire_abandoned(), Ok(()));
    assert_eq!(ring.phase(), FramePhase::Idle);
    assert_eq!(ring.frame_index(), 0);
    assert!(!ring.is_in_flight(0));
}

#[test]
fn rebuild_waits_for_idle_and_clears_every_slot() {
    let mut ring = FrameRing::new(2).unwrap();
    whole_frame(&mut ring, 0);
    whole_frame(&mut ring, 1);
    assert_eq!(ring.request_recreate(), Ok(()));
    assert_eq!(ring.phase(), FramePhase::AwaitingIdle);
    assert_eq!(ring.start(), Err(FrameError::OutOfTurn));
    assert_eq!(ring.resized(2), Err(FrameError::OutOfTurn));
    assert!(ring.is_in_flight(0));
    assert_eq!(ring.device_idle(), Ok(()));
    assert_eq!(ring.phase(), FramePhase::Rebuilding);
    assert!(!ring.is_in_flight(0));
    assert!(!ring.is_in_flight(1));
    assert_eq!(ring.resized(2), Ok(vec![vec![], vec![]]));
    assert_eq!(ring.phase(), FramePhase::Idle);
    assert_eq!(ring.start(), Ok(Some(vec![])));
}

#[test]
fn rebuild_is_refused_during_a_frame() {
    let mut ring = FrameRing::new(2).unwrap();
    assert_eq!(ring.start(), Ok(Some(vec![])));
    assert_eq!(ring.request_recreate(), Err(FrameError::OutOfTurn));
    assert_eq!(ring.phase(), FramePhase::RunningCallbacks);
}

#[test]
fn resized_ring_has_the_new_number_of_slots_and_hands_out_the_callbacks() {
    let mut ring = FrameRing::new(3).unwrap();
    assert_eq!(ring.start(), Ok(Some(vec![])));
    assert_eq!(ring.callbacks_done(), Ok(()));
    assert_eq!(ring.image_acquired(0), Ok(()));
    assert_eq!(ring.run_on_finish(4), Ok(()));
    assert_eq!(ring.recorded(), Ok(0));
    assert_eq!(ring.submitted(), Ok(0));
    assert_eq!(ring.presented(), Ok(()));
    whole_frame(&mut ring, 1);
    assert_eq!(ring.frame_index(), 2);
    assert_eq!(ring.resized(2), Err(FrameError::OutOfTurn));
    assert_eq!(ring.request_recreate(), Ok(()));
    assert_eq!(ring.resized(2), Err(FrameError::OutOfTurn));
    assert_eq!(ring.device_idle(), Ok(()));
    assert_eq!(ring.resized(0), Err(FrameError::NoSlots));
    assert_eq!(ring.phase(), FramePhase::Rebuilding);
    assert_eq!(ring.resized(2), Ok(vec![vec![4], vec![], vec![]]));
    assert_eq!(ring.slots(), 2);
    assert_eq!(ring.frame_index(), 0);
    assert_eq!(ring.phase(), FramePhase::Idle);
    assert!(!ring.is_in_flight(0));
    assert!(!ring.is_in_flight(1));
    assert_eq!(ring.start(), Ok(Some(vec![])));
}

#[test]
fn resized_ring_goes_on_with_its_slot_where_that_is_still_there() {
    let mut ring = FrameRing::new(2).unwrap();
    whole_frame(&mut ring, 0);
    assert_eq!(ring.request_recreate(), Ok(()));
    assert_eq!(ring.device_idle(), Ok(()));
    assert_eq!(ring.resized(5), Ok(vec![vec![], vec![]]));
    assert_eq!(ring.slots(), 5);
    assert_eq!(ring.frame_index(), 1);
}
