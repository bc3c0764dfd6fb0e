use adoption::gate::{has_policy_failure, step, AdoptionAction, AdoptionEvent, AdoptionStage};
use adoption::{AdoptionError, DogId, Person, Pitbull};

/// Drives one adoption through the machine, counting constructions.
fn drive<T>(
    results: Vec<Result<(), AdoptionError>>,
    construct: impl FnOnce() -> Result<T, AdoptionError>,
    constructions: &mut u32,
) -> Result<T, AdoptionError> {
    let (stage, action) = step(AdoptionStage::CheckingPolicy, AdoptionEvent::PolicyResolved(results));
    match action {
        AdoptionAction::Finish(r) => {
            assert_eq!(stage, AdoptionStage::Finished);
            r
        }
        AdoptionAction::Construct => {
            assert_eq!(stage, AdoptionStage::Constructing);
            *constructions += 1;
            let (stage, action) = step(stage, AdoptionEvent::Constructed(construct()));
            assert_eq!(stage, AdoptionStage::Finished);
            match action {
                AdoptionAction::Finish(r) => r,
                AdoptionAction::Construct => panic!("construction asked for twice"),
            }
        }
    }
}

#[test]
fn it_works() {
    let id = DogId("fluffy123".to_string());
    let adopter = Person::new("Fred".to_string());
    assert_eq!(adopter.name(), "Fred");
    let mut n = 0;
    let pet = drive(Vec::new(), || Pitbull::construct(&id), &mut n).unwrap();
    assert_eq!(pet.id, DogId("fluffy123".to_string()));
    assert_eq!(n, 1);
}

#[test]
fn no_checks_success_follows_construction() {
    let mut n = 0;
    let ok: Result<u32, AdoptionError> = drive(Vec::new(), || Ok(7), &mut n);
    assert_eq!(ok, Ok(7));
    let err: Result<u32, AdoptionError> = drive(Vec::new(), || Err(AdoptionError), &mut n);
    assert_eq!(err, Err(AdoptionError));
    assert_eq!(n, 2);
}

#[test]
fn failing_check_rejects_without_construction() {
    let mut n = 0;
    let r: Result<u32, AdoptionError> =
        drive(vec![Ok(()), Err(AdoptionError), Ok(())], || Ok(1), &mut n);
    assert_eq!(r, Err(AdoptionError));
    let r: Result<u32, AdoptionError> = drive(vec![Err(AdoptionError)], || Ok(1), &mut n);
    assert_eq!(r, Err(AdoptionError));
    let r: Result<u32, AdoptionError> =
        drive(vec![Err(AdoptionError), Err(AdoptionError)], || Ok(1), &mut n);
    assert_eq!(r, Err(AdoptionError));
    assert_eq!(n, 0);
}

#[test]
fn passing_checks_pass_construction_through() {
    let mut n = 0;
    let r: Result<u32, AdoptionError> = drive(vec![Ok(()), Ok(()), Ok(())], || Ok(42), &mut n);
    assert_eq!(r, Ok(42));
    let r: Result<u32, AdoptionError> = drive(vec![Ok(())], || Err(AdoptionError), &mut n);
    assert_eq!(r, Err(AdoptionError));
    assert_eq!(n, 2);
}

#[test]
fn adopting_twice_gives_same_outcome() {
    let id = DogId("rex".to_string());
    let mut n = 0;
    let a = drive(vec![Ok(())], || Pitbull::construct(&id), &mut n).unwrap();
    let b = drive(vec![Ok(())], || Pitbull::construct(&id), &mut n).unwrap();
    assert_eq!(a.id, b.id);
    let c: Result<u32, AdoptionError> = drive(vec![Err(AdoptionError)], || Ok(3), &mut n);
    let d: Result<u32, AdoptionError> = drive(vec![Err(AdoptionError)], || Ok(3), &mut n);
    assert_eq!(c, d);
}

#[test]
fn policy_failure_detection() {
    assert!(!has_policy_failure(&Vec::new()));
    assert!(!has_policy_failure(&vec![Ok(()), Ok(())]));
    assert!(has_policy_failure(&vec![Ok(()), Ok(()), Err(AdoptionError)]));
    assert!(has_policy_failure(&vec![Err(AdoptionError)]));
}

#[test]
fn construction_keeps_identifier() {
    let id = DogId("spot".to_string());
    let pet = Pitbull::construct(&id).unwrap();
    assert_eq!(pet.id.0, "spot");
    assert_ne!(pet.id, DogId("fluffy123".to_string()));
}

#[test]
fn dog_id_clone_and_equality() {
    let a = DogId("a1".to_string());
    let b = a.clone();
    assert_eq!(a, b);
    assert_ne!(a, DogId("a2".to_string()));
}
