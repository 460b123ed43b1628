use net_sim::backend::Outcome;
use net_sim::relay::{conclude, handle_heal, handle_latency, handle_partition, respond};
use net_sim::request::ChaosRequest;

fn response(status: u16, body: &'static str) -> reqwest::Response {
    reqwest::Response::from(http::Response::builder().status(status).body(body).unwrap())
}

fn builder_error() -> reqwest::Error {
    reqwest::Client::new().post("chaos/partition").build().unwrap_err()
}

fn runtime() -> tokio::runtime::Runtime {
    tokio::runtime::Builder::new_current_thread().enable_all().build().unwrap()
}

fn client() -> reqwest::Client {
    reqwest::Client::builder().no_proxy().build().unwrap()
}

#[test]
fn any_response_counts_as_dispatched() {
    for status in [200u16, 204, 301, 400, 404, 500, 503] {
        assert_eq!(Outcome::from_exchange(Ok(response(status, "ignored"))), Outcome::Dispatched);
    }
}

#[test]
fn any_response_is_answered_ok() {
    for status in [200u16, 404, 500] {
        let envelope = conclude(Ok(response(status, "{\"status\":\"rejected\"}")));
        assert_eq!(envelope.status(), "ok");
        assert_eq!(envelope.http_status(), 200);
    }
}

#[test]
fn transport_error_becomes_a_failure_with_its_text() {
    let text = builder_error().to_string();
    assert!(!text.is_empty());
    assert_eq!(Outcome::from_exchange(Err(builder_error())), Outcome::TransportFailure(text));
}

#[test]
fn transport_error_is_answered_with_its_text() {
    let text = builder_error().to_string();
    let envelope = conclude(Err(builder_error()));
    assert_eq!(envelope.status(), format!("error: {}", text));
    assert!(envelope.status().len() > "error: ".len());
    assert_eq!(envelope.http_status(), 200);
}

#[test]
fn unreachable_backend_is_answered_with_an_error_envelope() {
    let call = handle_partition(
        ChaosRequest { region: String::from("eu-west"), latency_ms: None },
        "http://127.0.0.1:1",
    );
    assert_eq!(call.url, "http://127.0.0.1:1/chaos/partition");
    let exchange = runtime().block_on(async { client().post(&call.url).send().await });
    assert!(exchange.is_err());
    let envelope = conclude(exchange);
    assert!(envelope.status().starts_with("error: "));
    assert!(envelope.status().len() > "error: ".len());
    assert_eq!(envelope.http_status(), 200);
}

#[test]
fn latency_scenario_with_a_backend_that_answers() {
    let call = handle_latency(
        ChaosRequest { region: String::from("us-east"), latency_ms: Some(250) },
        "http://flyd-sim:8080",
    );
    assert_eq!(call.url, "http://flyd-sim:8080/chaos/latency");
    assert_eq!(call.body, ChaosRequest { region: String::from("us-east"), latency_ms: Some(250) });
    let envelope = conclude(Ok(response(200, "")));
    assert_eq!(envelope.status(), "ok");
    assert_eq!(envelope.http_status(), 200);
}

#[test]
fn conclude_agrees_with_respond_on_the_outcome_read() {
    let text = builder_error().to_string();
    assert_eq!(
        conclude(Err(builder_error())).status(),
        respond(&Outcome::TransportFailure(text)).status()
    );
    assert_eq!(conclude(Ok(response(200, ""))).status(), respond(&Outcome::Dispatched).status());
}

#[test]
fn concurrent_requests_each_get_their_own_envelope() {
    let workers = tokio::runtime::Builder::new_multi_thread().worker_threads(4).build().unwrap();
    let answers = workers.block_on(async {
        let mut tasks = Vec::new();
        for i in 0..100u64 {
            tasks.push(tokio::spawn(async move {
                let body = ChaosRequest { region: format!("region-{}", i), latency_ms: None };
                if i % 2 == 0 {
                    let call = handle_partition(body, "http://flyd-sim:8080");
                    let expected = format!("error: {}", builder_error());
                    (i, call, conclude(Err(builder_error())), expected)
                } else {
                    let call = handle_heal(body, "http://flyd-sim:8080");
                    (i, call, conclude(Ok(response(200, ""))), String::from("ok"))
                }
            }));
        }
        let mut answers = Vec::new();
        for task in tasks {
            answers.push(task.await.unwrap());
        }
        answers
    });
    assert_eq!(answers.len(), 100);
    for (i, call, envelope, expected) in answers {
        let path = if i % 2 == 0 { "/chaos/partition" } else { "/chaos/heal" };
        assert_eq!(call.url, format!("http://flyd-sim:8080{}", path));
        assert_eq!(call.body.region, format!("region-{}", i));
        assert_eq!(envelope.status(), expected);
        assert_eq!(envelope.http_status(), 200);
    }
}
