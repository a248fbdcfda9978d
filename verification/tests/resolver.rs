use std::cell::RefCell;

use dns_ptr_resolver::text::to_lowercase;
use dns_ptr_resolver::{
    advance, follow, get_ptr, ptr_resolve, Answer, Chase, FailureKind, IpAddress, QueryReply,
    ResolvedResult, ResolvingError, Step, MAX_CNAME_HOPS,
};
use hickory_resolver::Name;

fn ptr(target: &str) -> QueryReply {
    QueryReply::Answers(vec![Answer::Ptr(target.to_string())])
}

fn cname(target: &str) -> QueryReply {
    QueryReply::Answers(vec![Answer::Cname(target.to_string())])
}

fn resolved(query: &str, result: Option<&str>) -> ResolvedResult {
    ResolvedResult {
        query: query.to_string(),
        result: result.map(|name| name.to_string()),
        error: None,
    }
}

/// The address that a dotted quad writes.
fn parse_v4(text: &str) -> IpAddress {
    let octets: Vec<u8> = text.split('.').map(|part| part.parse().expect("To parse")).collect();
    IpAddress::V4([octets[0], octets[1], octets[2], octets[3]])
}

#[test]
fn test_get_ptr() {
    // What the nameservers of Google answer.
    let client = |name: &str| match name {
        "8.8.8.8.in-addr.arpa." => ptr("dns.google."),
        _ => QueryReply::Answers(vec![]),
    };

    let query_address = parse_v4("8.8.8.8");

    assert_eq!(
        get_ptr(query_address, client).unwrap(),
        ResolvedResult {
            query: "8.8.8.8.in-addr.arpa.".to_string(),
            result: Some("dns.google.".to_string()),
            error: None,
        }
    );
}

#[test]
fn test_ptr_resolve() {
    // What the nameserver at 1.1.1.1, port 53, answers.
    let client = |name: &str| match name {
        "1.1.1.1.in-addr.arpa." => ptr("one.one.one.one."),
        _ => QueryReply::Answers(vec![]),
    };

    let name_to_resolve = "1.1.1.1.in-addr.arpa.".to_string();

    assert_eq!(
        ptr_resolve(name_to_resolve.clone(), client).unwrap(),
        ResolvedResult {
            query: name_to_resolve,
            result: Some("one.one.one.one.".to_string()),
            error: None,
        }
    );
}

#[test]
fn ptr_target_comes_back_in_lower_case() {
    let outcome = ptr_resolve("4.4.8.8.in-addr.arpa.".to_string(), |_: &str| ptr("DNS.Google."));
    assert_eq!(outcome, Ok(resolved("4.4.8.8.in-addr.arpa.", Some("dns.google."))));
}

#[test]
fn only_the_first_answer_is_looked_at() {
    let reply = QueryReply::Answers(vec![
        Answer::Ptr("first.example.".to_string()),
        Answer::Ptr("second.example.".to_string()),
        Answer::Other("TXT".to_string()),
    ]);
    let outcome = ptr_resolve("1.0.0.10.in-addr.arpa.".to_string(), |_: &str| reply.clone());
    assert_eq!(outcome, Ok(resolved("1.0.0.10.in-addr.arpa.", Some("first.example."))));
}

#[test]
fn cname_is_followed_to_the_ptr_record() {
    let asked = RefCell::new(Vec::new());
    let client = |name: &str| {
        asked.borrow_mut().push(name.to_string());
        match name {
            "75.7.246.87.in-addr.arpa." => cname("75.0-255.7.246.87.in-addr.arpa."),
            "75.0-255.7.246.87.in-addr.arpa." => ptr("bulbank.linkbg.com."),
            _ => QueryReply::Failed("no such zone".to_string()),
        }
    };
    let outcome = get_ptr(IpAddress::V4([87, 246, 7, 75]), &client);
    assert_eq!(
        outcome,
        Ok(resolved("75.0-255.7.246.87.in-addr.arpa.", Some("bulbank.linkbg.com.")))
    );
    assert_eq!(
        *asked.borrow(),
        vec!["75.7.246.87.in-addr.arpa.", "75.0-255.7.246.87.in-addr.arpa."]
    );
}

#[test]
fn several_cnames_are_followed_in_turn() {
    let client = |name: &str| match name {
        "a.example." => cname("B.example."),
        "b.example." => cname("C.Example."),
        "c.example." => ptr("Host.Example."),
        _ => QueryReply::Failed("asked for the wrong name".to_string()),
    };
    let outcome = ptr_resolve("a.example.".to_string(), client);
    assert_eq!(outcome, Ok(resolved("c.example.", Some("host.example."))));
}

#[test]
fn cname_without_ptr_behind_it_resolves_to_nothing() {
    let client = |name: &str| match name {
        "a.example." => cname("b.example."),
        _ => QueryReply::Answers(vec![]),
    };
    assert_eq!(
        ptr_resolve("a.example.".to_string(), client),
        Ok(resolved("b.example.", None))
    );
}

#[test]
fn no_answer_is_a_success_without_a_name() {
    let outcome = ptr_resolve("1.2.0.192.in-addr.arpa.".to_string(), |_: &str| {
        QueryReply::Answers(vec![])
    });
    assert_eq!(outcome, Ok(resolved("1.2.0.192.in-addr.arpa.", None)));
}

#[test]
fn failed_query_is_an_error_outcome() {
    let outcome = ptr_resolve("1.2.0.192.in-addr.arpa.".to_string(), |_: &str| {
        QueryReply::Failed("connection refused".to_string())
    });
    assert_eq!(
        outcome,
        Err(ResolvingError {
            kind: FailureKind::Transport,
            message: "Query error for (1.2.0.192.in-addr.arpa.): connection refused".to_string(),
        })
    );
}

#[test]
fn failed_query_is_asked_once() {
    let asked = RefCell::new(0);
    let client = |_: &str| {
        *asked.borrow_mut() += 1;
        QueryReply::Failed("timed out".to_string())
    };
    assert!(ptr_resolve("1.2.0.192.in-addr.arpa.".to_string(), &client).is_err());
    assert_eq!(*asked.borrow(), 1);
}

#[test]
fn failure_behind_a_cname_names_the_name_that_was_asked() {
    let client = |name: &str| match name {
        "a.example." => cname("b.example."),
        _ => QueryReply::Failed("timed out".to_string()),
    };
    let error = ptr_resolve("a.example.".to_string(), client).unwrap_err();
    assert_eq!(error.kind, FailureKind::Transport);
    assert_eq!(error.message, "Query error for (b.example.): timed out");
}

#[test]
fn other_record_in_the_first_place_is_an_error() {
    let reply = QueryReply::Answers(vec![
        Answer::Other("A(1.2.3.4)".to_string()),
        Answer::Ptr("late.example.".to_string()),
    ]);
    let outcome = ptr_resolve("4.3.2.1.in-addr.arpa.".to_string(), |_: &str| reply.clone());
    assert_eq!(
        outcome,
        Err(ResolvingError {
            kind: FailureKind::UnexpectedRecord,
            message: "Unexpected result (A(1.2.3.4)) from: 4.3.2.1.in-addr.arpa.".to_string(),
        })
    );
}

#[test]
fn record_without_data_is_an_error() {
    let outcome = ptr_resolve("4.3.2.1.in-addr.arpa.".to_string(), |_: &str| {
        QueryReply::Answers(vec![Answer::Empty])
    });
    assert_eq!(
        outcome,
        Err(ResolvingError {
            kind: FailureKind::EmptyRecord,
            message: "Weird empty result from: 4.3.2.1.in-addr.arpa.".to_string(),
        })
    );
}

#[test]
fn cname_loop_is_given_up() {
    let asked = RefCell::new(0u32);
    let client = |name: &str| {
        *asked.borrow_mut() += 1;
        match name {
            "a.example." => cname("b.example."),
            _ => cname("a.example."),
        }
    };
    let error = ptr_resolve("a.example.".to_string(), &client).unwrap_err();
    assert_eq!(error.kind, FailureKind::ChainTooLong);
    assert_eq!(error.message, "Too many CNAME redirections at: a.example.");
    assert_eq!(MAX_CNAME_HOPS, 8);
    assert_eq!(*asked.borrow(), MAX_CNAME_HOPS + 1);
}

#[test]
fn chain_of_the_greatest_length_is_followed() {
    // name 0 redirects to name 1, and so on; name 8 has the PTR record.
    let client = |name: &str| {
        let number: u32 = name.trim_end_matches(".example.").parse().unwrap();
        if number < MAX_CNAME_HOPS {
            cname(&format!("{}.example.", number + 1))
        } else {
            ptr("end.example.")
        }
    };
    assert_eq!(
        ptr_resolve("0.example.".to_string(), client),
        Ok(resolved("8.example.", Some("end.example.")))
    );
}

#[test]
fn chain_one_longer_than_the_greatest_length_fails() {
    let client = |name: &str| {
        let number: u32 = name.trim_end_matches(".example.").parse().unwrap();
        if number < MAX_CNAME_HOPS + 1 {
            cname(&format!("{}.example.", number + 1))
        } else {
            ptr("end.example.")
        }
    };
    let error = ptr_resolve("0.example.".to_string(), client).unwrap_err();
    assert_eq!(error.kind, FailureKind::ChainTooLong);
    assert_eq!(error.message, "Too many CNAME redirections at: 8.example.");
}

#[test]
fn follow_counts_the_redirections_from_what_is_left() {
    let client = |name: &str| match name {
        "a.example." => cname("b.example."),
        "b.example." => cname("c.example."),
        _ => ptr("host.example."),
    };
    let start = |hops_left| Chase { name: "a.example.".to_string(), hops_left };
    assert_eq!(follow(start(2), &client), Ok(resolved("c.example.", Some("host.example."))));
    let error = follow(start(1), &client).unwrap_err();
    assert_eq!(error.kind, FailureKind::ChainTooLong);
    assert_eq!(error.message, "Too many CNAME redirections at: b.example.");
    let error = follow(start(0), &client).unwrap_err();
    assert_eq!(error.message, "Too many CNAME redirections at: a.example.");
}

#[test]
fn advance_stops_on_a_ptr_record() {
    let chase = Chase { name: "q.example.".to_string(), hops_left: 3 };
    assert_eq!(
        advance(chase, &ptr("Target.Example.")),
        Step::Done(Ok(resolved("q.example.", Some("target.example."))))
    );
}

#[test]
fn advance_asks_for_the_target_of_a_cname_record() {
    let chase = Chase { name: "q.example.".to_string(), hops_left: 3 };
    assert_eq!(
        advance(chase, &cname("Alias.Example.")),
        Step::Ask(Chase { name: "alias.example.".to_string(), hops_left: 2 })
    );
}

#[test]
fn advance_stops_on_a_cname_record_when_no_redirection_is_left() {
    let chase = Chase { name: "q.example.".to_string(), hops_left: 0 };
    assert_eq!(
        advance(chase, &cname("alias.example.")),
        Step::Done(Err(ResolvingError {
            kind: FailureKind::ChainTooLong,
            message: "Too many CNAME redirections at: q.example.".to_string(),
        }))
    );
}

#[test]
fn advance_stops_on_every_other_reply() {
    let chase = || Chase { name: "q.example.".to_string(), hops_left: 1 };
    assert_eq!(
        advance(chase(), &QueryReply::Answers(vec![])),
        Step::Done(Ok(resolved("q.example.", None)))
    );
    assert_eq!(
        advance(chase(), &QueryReply::Failed("broken pipe".to_string())),
        Step::Done(Err(ResolvingError::transport("q.example.", "broken pipe")))
    );
    assert_eq!(
        advance(chase(), &QueryReply::Answers(vec![Answer::Other("MX".to_string())])),
        Step::Done(Err(ResolvingError::unexpected_record("MX", "q.example.")))
    );
    assert_eq!(
        advance(chase(), &QueryReply::Answers(vec![Answer::Empty])),
        Step::Done(Err(ResolvingError::empty_record("q.example.")))
    );
}

#[test]
fn error_describes_itself_by_its_message() {
    let error = ResolvingError::transport("q.example.", "timed out");
    assert_eq!(error.describe(), "Query error for (q.example.): timed out");
    assert_eq!(error.describe(), error.message);
    assert!(error.is_transport());
    assert!(!ResolvingError::empty_record("q.example.").is_transport());
    assert!(!ResolvingError::unexpected_record("MX", "q.example.").is_transport());
    assert!(!ResolvingError::chain_too_long("q.example.").is_transport());
}

#[test]
fn lower_case_changes_the_ascii_capitals_only() {
    assert_eq!(to_lowercase("DNS.Google."), "dns.google.");
    assert_eq!(to_lowercase("AZ-az_09.@[`{"), "az-az_09.@[`{");
    assert_eq!(to_lowercase("ÄÖÜ.Example."), "ÄÖÜ.example.");
    assert_eq!(to_lowercase(""), "");
}

#[test]
fn lower_case_agrees_with_hickory() {
    for text in ["DNS.Google.", "One.ONE.one.One.", "75.0-255.7.246.87.IN-ADDR.ARPA.", "MiXeD"] {
        let name = Name::from_ascii(text).unwrap();
        assert_eq!(to_lowercase(text), name.to_lowercase().to_ascii());
        assert_eq!(to_lowercase(&name.to_string()), name.to_lowercase().to_string());
    }
}
