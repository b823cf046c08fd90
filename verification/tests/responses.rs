use neshan_rs::{
    expected_body, is_success, refusal_outcome, success_outcome, Distance, Duration, Error,
    Expected, Failure, Leg, PostalAddress, Route, Routes,
};

fn example_routes() -> Routes {
    Routes {
        routes: vec![Route {
            legs: vec![Leg {
                summary: "Example Rd".to_string(),
                duration: Duration { value: 600, text: "10 minutes".to_string() },
                distance: Distance { value: 5000, text: "5 km".to_string() },
            }],
        }],
    }
}

#[test]
fn statuses_from_200_to_299_report_success() {
    assert!(!is_success(0));
    assert!(!is_success(100));
    assert!(!is_success(199));
    assert!(is_success(200));
    assert!(is_success(204));
    assert!(is_success(299));
    assert!(!is_success(300));
    assert!(!is_success(400));
    assert!(!is_success(500));
    assert!(!is_success(u16::MAX));
}

#[test]
fn the_status_decides_what_the_body_is_taken_for() {
    assert_eq!(expected_body(200), Expected::Payload);
    assert_eq!(expected_body(299), Expected::Payload);
    assert_eq!(expected_body(199), Expected::ServiceError);
    assert_eq!(expected_body(300), Expected::ServiceError);
    assert_eq!(expected_body(400), Expected::ServiceError);
    assert_eq!(expected_body(404), Expected::ServiceError);
    assert_eq!(expected_body(500), Expected::ServiceError);
}

#[test]
fn a_decoded_payload_is_the_result() {
    assert_eq!(expected_body(200), Expected::Payload);
    match success_outcome::<Routes, String>(Ok(example_routes())) {
        Ok(routes) => {
            assert_eq!(routes.routes.len(), 1);
            assert_eq!(routes.routes[0].legs.len(), 1);
            let leg = &routes.routes[0].legs[0];
            assert_eq!(leg.summary, "Example Rd");
            assert_eq!(leg.duration.value, 600);
            assert_eq!(leg.duration.text, "10 minutes");
            assert_eq!(leg.distance.value, 5000);
            assert_eq!(leg.distance.text, "5 km");
            assert_eq!(routes, example_routes());
        }
        Err(_) => panic!("a decoded payload gave a failure"),
    }
}

#[test]
fn a_decoded_refusal_is_a_service_error() {
    assert_eq!(expected_body(400), Expected::ServiceError);
    let decoded = Ok(Error { code: 400, message: "Invalid input".to_string() });
    match refusal_outcome::<Routes, String>(decoded) {
        Err(Failure::Service(error)) => {
            assert_eq!(error.code, 400);
            assert_eq!(error.message, "Invalid input");
        }
        Err(Failure::Decoding(_)) => panic!("a decoded refusal gave a decoding failure"),
        Err(Failure::Transport(_)) => panic!("a decoded refusal gave a transport failure"),
        Ok(_) => panic!("a refusal gave a result"),
    }
}

#[test]
fn a_malformed_body_is_a_decoding_failure() {
    assert_eq!(expected_body(200), Expected::Payload);
    match success_outcome::<Routes, String>(Err("expected value at line 1".to_string())) {
        Err(Failure::Decoding(cause)) => assert_eq!(cause, "expected value at line 1"),
        Err(_) => panic!("a malformed body gave another failure"),
        Ok(_) => panic!("a malformed body gave a result"),
    }
    match refusal_outcome::<PostalAddress, u8>(Err(7)) {
        Err(Failure::Decoding(cause)) => assert_eq!(cause, 7),
        Err(_) => panic!("a malformed body gave another failure"),
        Ok(_) => panic!("a malformed body gave a result"),
    }
}

#[test]
fn parts_of_an_address_without_data_stay_absent() {
    let address = PostalAddress {
        formatted_address: "تهران، خیابان کارگر شمالی".to_string(),
        route_name: "کارگر شمالی".to_string(),
        neighbourhood: None,
        city: "تهران".to_string(),
        state: "تهران".to_string(),
        place: None,
        municipality_zone: None,
        in_traffic_zone: false,
        in_odd_even_zone: true,
    };
    match success_outcome::<PostalAddress, String>(Ok(address.clone())) {
        Ok(found) => {
            assert_eq!(found.neighbourhood, None);
            assert_eq!(found.place, None);
            assert_eq!(found.municipality_zone, None);
            assert_eq!(found, address);
        }
        Err(_) => panic!("a decoded address gave a failure"),
    }
}

#[test]
fn parts_of_an_address_with_data_are_kept() {
    let address = PostalAddress {
        formatted_address: "تهران، قزل قلعه".to_string(),
        route_name: "کارگر شمالی".to_string(),
        neighbourhood: Some("قزل قلعه".to_string()),
        city: "تهران".to_string(),
        state: "تهران".to_string(),
        place: Some("".to_string()),
        municipality_zone: Some("6".to_string()),
        in_traffic_zone: true,
        in_odd_even_zone: true,
    };
    match success_outcome::<PostalAddress, String>(Ok(address)) {
        Ok(found) => {
            assert_eq!(found.neighbourhood.as_ref().unwrap(), "قزل قلعه");
            assert_eq!(found.municipality_zone.as_ref().unwrap(), "6");
            assert_eq!(found.city, "تهران");
            assert_eq!(found.place, Some(String::new()));
        }
        Err(_) => panic!("a decoded address gave a failure"),
    }
}
