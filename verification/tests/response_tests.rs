use graph_rs::response::{convert, pipeline, DeltaCursor, Expected, Failure, Outcome};

fn v(s: &str) -> Vec<u8> {
    s.as_bytes().to_vec()
}

#[test]
fn collection_two_items_and_preserved_cursor() {
    let body = v("{\"value\": [{\"a\":1},{\"a\":2}], \"@odata.nextLink\":\"X\"}");
    match convert(200, Vec::new(), &body, Expected::Collection) {
        Ok(Outcome::Collection { items, next }) => {
            assert_eq!(items.len(), 2);
            assert_eq!(items[0], v("{\"a\":1}"));
            assert_eq!(items[1], v("{\"a\":2}"));
            assert_eq!(next, Some("X".to_string()));
        },
        _ => panic!("expected a collection outcome"),
    }
}

#[test]
fn collection_without_next_link_is_cursorless() {
    let body = v("{\"value\": [{\"a\":1}]}");
    match convert(200, Vec::new(), &body, Expected::Collection) {
        Ok(Outcome::Collection { items, next }) => {
            assert_eq!(items.len(), 1);
            assert_eq!(next, None);
        },
        _ => panic!("expected a collection outcome"),
    }
}

#[test]
fn error_envelope_is_api_failure_not_decode() {
    let body = v("{\"error\":{\"code\":\"itemNotFound\",\"message\":\"m\"}}");
    match convert(404, Vec::new(), &body, Expected::Single) {
        Err(Failure::Api { code, message }) => {
            assert_eq!(code, "itemNotFound");
            assert_eq!(message, "m");
        },
        _ => panic!("expected an api failure"),
    }
}

#[test]
fn error_envelope_wins_for_every_expected_shape() {
    let body = v("{\"error\":{\"code\":\"c\",\"message\":\"m\"}}");
    for expected in [Expected::ContentOnly, Expected::Single, Expected::Collection, Expected::Delta]
    {
        match convert(400, Vec::new(), &body, expected) {
            Err(Failure::Api { code, .. }) => assert_eq!(code, "c"),
            _ => panic!("expected an api failure"),
        }
    }
}

#[test]
fn unreadable_error_body_keeps_status_and_bytes() {
    let body = v("oops, not json");
    match convert(502, Vec::new(), &body, Expected::Single) {
        Err(Failure::Unreadable { status, body: raw }) => {
            assert_eq!(status, 502);
            assert_eq!(raw, v("oops, not json"));
        },
        _ => panic!("expected an unreadable failure"),
    }
}

#[test]
fn single_value_is_reserialized_canonically() {
    let body = v("{\"a\": 1}");
    match convert(200, Vec::new(), &body, Expected::Single) {
        Ok(Outcome::Single { body: value }) => assert_eq!(value, v("{\"a\":1}")),
        _ => panic!("expected a single outcome"),
    }
}

#[test]
fn undecodable_success_body_is_decode_failure() {
    let body = v("not json at all");
    match convert(200, Vec::new(), &body, Expected::Single) {
        Err(Failure::Decode) => {},
        _ => panic!("expected a decode failure"),
    }
}

#[test]
fn success_body_of_wrong_shape_is_decode_failure() {
    let body = v("{\"a\":1}");
    match convert(200, Vec::new(), &body, Expected::Collection) {
        Err(Failure::Decode) => {},
        _ => panic!("expected a decode failure"),
    }
}

#[test]
fn content_only_ignores_the_body() {
    let body = v("anything, even unparseable");
    let headers = vec![(v("etag"), v("W/\"1\""))];
    match convert(204, headers, &body, Expected::ContentOnly) {
        Ok(Outcome::Content { status, headers }) => {
            assert_eq!(status, 204);
            assert_eq!(headers, vec![(v("etag"), v("W/\"1\""))]);
        },
        _ => panic!("expected a content outcome"),
    }
}

#[test]
fn delta_link_marks_caught_up() {
    let body = v("{\"value\":[{\"a\":1}],\"@odata.deltaLink\":\"D\"}");
    match convert(200, Vec::new(), &body, Expected::Delta) {
        Ok(Outcome::Delta { items, cursor }) => {
            assert_eq!(items.len(), 1);
            match cursor {
                Some(DeltaCursor::Done(d)) => assert_eq!(d, "D"),
                _ => panic!("expected a caught-up cursor"),
            }
        },
        _ => panic!("expected a delta outcome"),
    }
}

#[test]
fn next_link_marks_more_delta_pages() {
    let body = v("{\"value\":[],\"@odata.nextLink\":\"N\"}");
    match convert(200, Vec::new(), &body, Expected::Delta) {
        Ok(Outcome::Delta { items, cursor }) => {
            assert_eq!(items.len(), 0);
            match cursor {
                Some(DeltaCursor::More(n)) => assert_eq!(n, "N"),
                _ => panic!("expected a more-pages cursor"),
            }
        },
        _ => panic!("expected a delta outcome"),
    }
}

#[test]
fn delta_link_wins_over_next_link() {
    let body = v("{\"value\":[],\"@odata.nextLink\":\"N\",\"@odata.deltaLink\":\"D\"}");
    match convert(200, Vec::new(), &body, Expected::Delta) {
        Ok(Outcome::Delta { cursor, .. }) => match cursor {
            Some(DeltaCursor::Done(d)) => assert_eq!(d, "D"),
            _ => panic!("expected a caught-up cursor"),
        },
        _ => panic!("expected a delta outcome"),
    }
}

#[test]
fn delta_without_cursor() {
    let body = v("{\"value\":[]}");
    match convert(200, Vec::new(), &body, Expected::Delta) {
        Ok(Outcome::Delta { cursor, .. }) => assert!(cursor.is_none()),
        _ => panic!("expected a delta outcome"),
    }
}

#[test]
fn transport_failure_skips_parsing() {
    match pipeline(Err("connection timed out".to_string()), Expected::Single) {
        Err(Failure::Transport(m)) => assert_eq!(m, "connection timed out"),
        _ => panic!("expected a transport failure"),
    }
}

#[test]
fn pipeline_converts_a_delivered_response() {
    let body = v("{\"b\":2}");
    match pipeline(Ok((201, Vec::new(), body)), Expected::Single) {
        Ok(Outcome::Single { body: value }) => assert_eq!(value, v("{\"b\":2}")),
        _ => panic!("expected a single outcome"),
    }
}
