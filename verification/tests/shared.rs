use facade::notice::{Notice, Power};
use facade::shared::{AccessConflict, TunerBank};
use facade::tuner::Tuner;

#[test]
fn new_bank_holds_nothing() {
    let mut bank = TunerBank::new(1);
    let handle = bank.insert(Tuner::new("AM/FM"));
    let empty = TunerBank::new(1);
    assert!(!empty.contains(handle));
    assert!(bank.contains(handle));
    assert_eq!(bank.number(), 1);
}

#[test]
fn a_bank_takes_no_handle_of_another_bank() {
    let mut first = TunerBank::new(1);
    let mut second = TunerBank::new(2);
    let in_first = first.insert(Tuner::new("AM/FM"));
    let in_second = second.insert(Tuner::new("DAB"));
    assert_eq!(in_first.slot(), 0);
    assert_eq!(in_second.slot(), 0);
    assert_eq!(in_first.bank(), 1);
    assert_eq!(in_second.bank(), 2);
    assert_ne!(in_first, in_second);
    assert!(first.contains(in_first));
    assert!(!first.contains(in_second));
    assert!(second.contains(in_second));
    assert!(!second.contains(in_first));
}

#[test]
fn the_holder_of_the_write_access_tunes() {
    let mut bank = TunerBank::new(1);
    let handle = bank.insert(Tuner::new("AM/FM"));
    assert_eq!(bank.acquire_write(handle), Ok(()));
    assert_eq!(bank.tune(handle, 5), Err(AccessConflict));
    let notice = bank.tune_held(handle, 6);
    assert_eq!(notice, Notice::FrequencySet { label: String::from("AM/FM"), bits: 6 });
    assert!(bank.writing(handle));
    bank.release_write(handle);
    assert_eq!(bank.tuner(handle).frequency_bits(), Some(6));
    assert!(!bank.writing(handle));
}

#[test]
fn insert_gives_slots_in_order_and_a_free_tuner() {
    let mut bank = TunerBank::new(1);
    let first = bank.insert(Tuner::new("AM/FM"));
    let second = bank.insert(Tuner::new("DAB"));
    assert_eq!(first.slot(), 0);
    assert_eq!(second.slot(), 1);
    assert_ne!(first, second);
    assert_eq!(bank.tuner(first).label(), "AM/FM");
    assert_eq!(bank.tuner(second).label(), "DAB");
    assert_eq!(bank.readers(second), 0);
    assert!(!bank.writing(second));
}

#[test]
fn second_write_request_sees_a_conflict() {
    let mut bank = TunerBank::new(1);
    let handle = bank.insert(Tuner::new("AM/FM"));
    assert_eq!(bank.acquire_write(handle), Ok(()));
    assert!(bank.writing(handle));
    assert_eq!(bank.acquire_write(handle), Err(AccessConflict));
    assert!(bank.writing(handle));
    assert_eq!(bank.readers(handle), 0);
}

#[test]
fn write_access_shuts_readers_out() {
    let mut bank = TunerBank::new(1);
    let handle = bank.insert(Tuner::new("AM/FM"));
    assert_eq!(bank.acquire_write(handle), Ok(()));
    assert_eq!(bank.acquire_read(handle), Err(AccessConflict));
    assert_eq!(bank.readers(handle), 0);
    assert_eq!(bank.switch_on(handle), Err(AccessConflict));
    assert_eq!(bank.switch_off(handle), Err(AccessConflict));
    assert_eq!(bank.tune(handle, 7), Err(AccessConflict));
    assert_eq!(bank.tuner(handle).power(), Power::Off);
    assert_eq!(bank.tuner(handle).frequency_bits(), None);
}

#[test]
fn readers_share_and_shut_the_writer_out() {
    let mut bank = TunerBank::new(1);
    let handle = bank.insert(Tuner::new("AM/FM"));
    assert_eq!(bank.acquire_read(handle), Ok(()));
    assert_eq!(bank.acquire_read(handle), Ok(()));
    assert_eq!(bank.readers(handle), 2);
    assert_eq!(bank.acquire_write(handle), Err(AccessConflict));
    assert_eq!(bank.tune(handle, 7), Err(AccessConflict));
    assert_eq!(bank.tuner(handle).frequency_bits(), None);
    assert_eq!(
        bank.switch_on(handle),
        Ok(Notice::PoweredOn { label: String::from("AM/FM") })
    );
    assert_eq!(bank.tuner(handle).power(), Power::On);
    assert_eq!(bank.readers(handle), 2);
    bank.release_read(handle);
    assert_eq!(bank.acquire_write(handle), Err(AccessConflict));
    bank.release_read(handle);
    assert_eq!(bank.readers(handle), 0);
    assert_eq!(bank.acquire_write(handle), Ok(()));
}

#[test]
fn access_is_granted_again_after_release() {
    let mut bank = TunerBank::new(1);
    let handle = bank.insert(Tuner::new("AM/FM"));
    assert_eq!(bank.acquire_write(handle), Ok(()));
    assert_eq!(bank.tune(handle, 9), Err(AccessConflict));
    bank.release_write(handle);
    assert!(!bank.writing(handle));
    assert_eq!(
        bank.tune(handle, 9),
        Ok(Notice::FrequencySet { label: String::from("AM/FM"), bits: 9 })
    );
    assert_eq!(bank.tuner(handle).frequency_bits(), Some(9));
    assert!(!bank.writing(handle));
    assert_eq!(bank.readers(handle), 0);
}

#[test]
fn operations_give_their_access_back() {
    let mut bank = TunerBank::new(1);
    let handle = bank.insert(Tuner::new("AM/FM"));
    assert!(bank.switch_on(handle).is_ok());
    assert_eq!(bank.readers(handle), 0);
    assert!(bank.tune(handle, 3).is_ok());
    assert!(!bank.writing(handle));
    assert_eq!(
        bank.switch_off(handle),
        Ok(Notice::PoweredOff { label: String::from("AM/FM") })
    );
    assert_eq!(bank.readers(handle), 0);
    assert!(bank.tune(handle, 4).is_ok());
    assert_eq!(bank.tuner(handle).frequency_bits(), Some(4));
    assert_eq!(bank.tuner(handle).power(), Power::Off);
}

#[test]
fn copies_of_a_handle_name_one_tuner() {
    let mut bank = TunerBank::new(1);
    let mine = bank.insert(Tuner::new("AM/FM"));
    let yours = mine;
    assert!(bank.tune(mine, 1015).is_ok());
    assert_eq!(bank.tuner(yours).frequency_bits(), Some(1015));
    assert!(bank.tune(yours, 881).is_ok());
    assert_eq!(bank.tuner(mine).frequency_bits(), Some(881));
    assert!(bank.switch_on(yours).is_ok());
    assert_eq!(bank.tuner(mine).power(), Power::On);
}

#[test]
fn different_handles_name_different_tuners() {
    let mut bank = TunerBank::new(1);
    let first = bank.insert(Tuner::new("AM/FM"));
    let second = bank.insert(Tuner::new("DAB"));
    assert!(bank.tune(first, 5).is_ok());
    assert!(bank.switch_on(first).is_ok());
    assert_eq!(bank.tuner(second).frequency_bits(), None);
    assert_eq!(bank.tuner(second).power(), Power::Off);
    assert_eq!(bank.acquire_write(first), Ok(()));
    assert_eq!(bank.acquire_write(second), Ok(()));
    assert_eq!(bank.acquire_read(first), Err(AccessConflict));
}

#[test]
fn handles_stay_good_as_the_bank_grows() {
    let mut bank = TunerBank::new(1);
    let first = bank.insert(Tuner::new("AM/FM"));
    assert!(bank.tune(first, 12).is_ok());
    assert_eq!(bank.acquire_read(first), Ok(()));
    let second = bank.insert(Tuner::new("DAB"));
    assert!(bank.contains(first));
    assert!(bank.contains(second));
    assert_eq!(bank.tuner(first).frequency_bits(), Some(12));
    assert_eq!(bank.readers(first), 1);
}
