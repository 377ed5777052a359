use client_handle::generate::client_handle_core;
use client_handle::model::{Interface, Operation, Param};
use proc_macro2::TokenStream;
use std::sync::{Arc, Mutex};
use std::time::{Duration, Instant};

// The items below, up to the implementation, are what the generator emits
// for `Service`; `expansion_matches_generator` holds the two together.

trait Service {
    fn label() -> u64;
    fn echo(&self, value: u64) -> u64;
    fn increment(&mut self, a: u64) -> u64;
    fn record(&mut self, value: u64);
    fn history(&self) -> Vec<u64>;
    fn slow(&self, millis: u64) -> u64;
}

#[derive(Debug, Clone)]
struct AsyncServiceHandle {
    handle: tokio::sync::mpsc::Sender<AsyncServiceMessage>,
}

trait ToAsyncHandle {
    fn to_async_handle(self, depth: usize) -> AsyncServiceHandle;
}

impl<T> ToAsyncHandle for T
where
    T: Service + Sync + Send + 'static
{
    fn to_async_handle(self: T, depth: usize) -> AsyncServiceHandle {
        AsyncServiceHandle::spawn(self, depth)
    }
}

impl AsyncServiceHandle {
    pub fn new(handle: tokio::sync::mpsc::Sender<AsyncServiceMessage>) -> Self {
        Self { handle }
    }

    pub fn spawn<T>(mut sync: T, depth: usize) -> Self
    where
        T: Service + Sync + Send + 'static
    {
        let (tx, mut rx) = tokio::sync::mpsc::channel(depth);
        tokio::spawn(async move {
            while let Some(msg) = rx.recv().await {
                match msg {
                    AsyncServiceMessage::Echo { return_value, value } => {
                        let result = sync.echo(value);
                        let _ = return_value.send(result);
                    }
                    AsyncServiceMessage::Increment { return_value, a } => {
                        let result = sync.increment(a);
                        let _ = return_value.send(result);
                    }
                    AsyncServiceMessage::Record { return_value, value } => {
                        let result = sync.record(value);
                        let _ = return_value.send(result);
                    }
                    AsyncServiceMessage::History { return_value, } => {
                        let result = sync.history();
                        let _ = return_value.send(result);
                    }
                    AsyncServiceMessage::Slow { return_value, millis } => {
                        let result = sync.slow(millis);
                        let _ = return_value.send(result);
                    }
                }
            }
        });
        Self { handle: tx }
    }

    async fn echo(&self, value: u64) -> u64 {
        let (return_value, response) = tokio::sync::oneshot::channel();
        self.handle.send(AsyncServiceMessage::Echo { return_value, value }).await.expect("Error when sending message to the sync code");
        response.await.expect("Error receiving the response")
    }

    async fn increment(&self, a: u64) -> u64 {
        let (return_value, response) = tokio::sync::oneshot::channel();
        self.handle.send(AsyncServiceMessage::Increment { return_value, a }).await.expect("Error when sending message to the sync code");
        response.await.expect("Error receiving the response")
    }

    async fn record(&self, value: u64) -> () {
        let (return_value, response) = tokio::sync::oneshot::channel();
        self.handle.send(AsyncServiceMessage::Record { return_value, value }).await.expect("Error when sending message to the sync code");
        response.await.expect("Error receiving the response")
    }

    async fn history(&self, ) -> Vec<u64> {
        let (return_value, response) = tokio::sync::oneshot::channel();
        self.handle.send(AsyncServiceMessage::History { return_value, }).await.expect("Error when sending message to the sync code");
        response.await.expect("Error receiving the response")
    }

    async fn slow(&self, millis: u64) -> u64 {
        let (return_value, response) = tokio::sync::oneshot::channel();
        self.handle.send(AsyncServiceMessage::Slow { return_value, millis }).await.expect("Error when sending message to the sync code");
        response.await.expect("Error receiving the response")
    }
}

#[derive(Debug)]
enum AsyncServiceMessage {
    Echo { return_value: tokio::sync::oneshot::Sender<u64>, value: u64 },
    Increment { return_value: tokio::sync::oneshot::Sender<u64>, a: u64 },
    Record { return_value: tokio::sync::oneshot::Sender<()>, value: u64 },
    History { return_value: tokio::sync::oneshot::Sender<Vec<u64>>, },
    Slow { return_value: tokio::sync::oneshot::Sender<u64>, millis: u64 }
}

struct SyncCode {
    item: u64,
    seen: Vec<u64>,
}

impl Service for SyncCode {
    fn label() -> u64 {
        7
    }

    fn echo(&self, value: u64) -> u64 {
        value
    }

    fn increment(&mut self, a: u64) -> u64 {
        // read, then write after a pause: interleaved calls would lose updates
        let before = self.item;
        busy_wait(Duration::from_micros(50));
        self.item = before + a;
        self.item
    }

    fn record(&mut self, value: u64) {
        self.seen.push(value);
    }

    fn history(&self) -> Vec<u64> {
        self.seen.clone()
    }

    fn slow(&self, millis: u64) -> u64 {
        busy_wait(Duration::from_millis(millis));
        millis
    }
}

fn busy_wait(length: Duration) {
    let start = Instant::now();
    while start.elapsed() < length {}
}

fn runtime() -> tokio::runtime::Runtime {
    tokio::runtime::Builder::new_multi_thread()
        .worker_threads(4)
        .enable_time()
        .build()
        .unwrap()
}

fn fresh() -> SyncCode {
    SyncCode { item: 0, seen: Vec::new() }
}

fn op(name: &str, has_receiver: bool, params: Vec<Param>, result: Option<&str>) -> Operation {
    Operation {
        name: name.to_string(),
        has_receiver,
        params,
        result: result.map(|r| r.to_string()),
    }
}

const SERVICE_DECLARATION: &str = "trait Service {
    fn label() -> u64;
    fn echo(&self, value: u64) -> u64;
    fn increment(&mut self, a: u64) -> u64;
    fn record(&mut self, value: u64);
    fn history(&self) -> Vec<u64>;
    fn slow(&self, millis: u64) -> u64;
}";

#[test]
fn expansion_matches_generator() {
    let iface = Interface {
        name: "Service".to_string(),
        declaration: SERVICE_DECLARATION.to_string(),
        operations: vec![
            op("label", false, vec![], Some("u64")),
            op("echo", true, vec![Param::new("value", "u64")], Some("u64")),
            op("increment", true, vec![Param::new("a", "u64")], Some("u64")),
            op("record", true, vec![Param::new("value", "u64")], None),
            op("history", true, vec![], Some("Vec<u64>")),
            op("slow", true, vec![Param::new("millis", "u64")], Some("u64")),
        ],
    };
    let generated = client_handle_core(&iface).parse::<TokenStream>().unwrap().to_string();
    let expected = EXPANSION.parse::<TokenStream>().unwrap().to_string();
    assert_eq!(generated, expected);
}

#[test]
fn echo_concurrently_returns_the_value() {
    runtime().block_on(async {
        let handle = fresh().to_async_handle(4);
        let mut calls = Vec::new();
        for _ in 0..3 {
            let h = handle.clone();
            calls.push(tokio::spawn(async move { h.echo(4).await }));
        }
        for call in calls {
            assert_eq!(call.await.unwrap(), 4);
        }
    });
}

#[test]
fn calls_reach_the_implementation_in_send_order() {
    runtime().block_on(async {
        let handle = AsyncServiceHandle::spawn(fresh(), 2);
        for value in 1..=20 {
            handle.record(value).await;
        }
        assert_eq!(handle.history().await, (1..=20).collect::<Vec<u64>>());
    });
}

#[test]
fn full_mailbox_keeps_the_second_call_waiting() {
    runtime().block_on(async {
        let handle = fresh().to_async_handle(1);
        let done = Arc::new(Mutex::new(Vec::new()));
        let (h, d) = (handle.clone(), done.clone());
        let first = tokio::spawn(async move {
            let r = h.slow(300).await;
            d.lock().unwrap().push("first");
            r
        });
        tokio::time::sleep(Duration::from_millis(50)).await;
        let (h, d) = (handle.clone(), done.clone());
        let second = tokio::spawn(async move {
            let r = h.echo(9).await;
            d.lock().unwrap().push("second");
            r
        });
        tokio::time::sleep(Duration::from_millis(100)).await;
        assert!(!second.is_finished());
        assert!(done.lock().unwrap().is_empty());
        assert_eq!(first.await.unwrap(), 300);
        assert_eq!(second.await.unwrap(), 9);
        assert_eq!(done.lock().unwrap().len(), 2);
    });
}

#[test]
fn concurrent_increments_are_serialized() {
    runtime().block_on(async {
        let handle = fresh().to_async_handle(8);
        let mut callers = Vec::new();
        for _ in 0..10 {
            let h = handle.clone();
            callers.push(tokio::spawn(async move {
                for _ in 0..10 {
                    h.increment(1).await;
                }
            }));
        }
        for caller in callers {
            caller.await.unwrap();
        }
        assert_eq!(handle.increment(0).await, 100);
    });
}

#[test]
fn test_increment() {
    runtime().block_on(async {
        let handle = SyncCode { item: 5, seen: Vec::new() }.to_async_handle(4);
        assert_eq!(handle.increment(4).await, 9);
        assert_eq!(handle.increment(1).await, 10);
    });
}

#[test]
fn free_operation_stays_on_the_implementation() {
    assert_eq!(SyncCode::label(), 7);
    runtime().block_on(async {
        let (tx, _rx) = tokio::sync::mpsc::channel(1);
        let handle = AsyncServiceHandle::new(tx);
        assert_eq!(format!("{:?}", handle).starts_with("AsyncServiceHandle"), true);
    });
}

#[test]
fn abandoned_reply_does_not_stop_the_dispatcher() {
    runtime().block_on(async {
        let handle = fresh().to_async_handle(4);
        let h = handle.clone();
        let waiting = tokio::spawn(async move { h.slow(200).await });
        tokio::time::sleep(Duration::from_millis(50)).await;
        waiting.abort();
        assert_eq!(handle.echo(3).await, 3);
    });
}

#[test]
fn clones_share_one_dispatcher() {
    runtime().block_on(async {
        let handle = fresh().to_async_handle(2);
        let other = handle.clone();
        handle.record(1).await;
        other.record(2).await;
        handle.record(3).await;
        assert_eq!(other.history().await, vec![1, 2, 3]);
    });
}

const EXPANSION: &str = r#"trait Service {
    fn label() -> u64;
    fn echo(&self, value: u64) -> u64;
    fn increment(&mut self, a: u64) -> u64;
    fn record(&mut self, value: u64);
    fn history(&self) -> Vec<u64>;
    fn slow(&self, millis: u64) -> u64;
}

#[derive(Debug, Clone)]
struct AsyncServiceHandle {
    handle: tokio::sync::mpsc::Sender<AsyncServiceMessage>,
}

trait ToAsyncHandle {
    fn to_async_handle(self, depth: usize) -> AsyncServiceHandle;
}

impl<T> ToAsyncHandle for T
where
    T: Service + Sync + Send + 'static
{
    fn to_async_handle(self: T, depth: usize) -> AsyncServiceHandle {
        AsyncServiceHandle::spawn(self, depth)
    }
}

impl AsyncServiceHandle {
    pub fn new(handle: tokio::sync::mpsc::Sender<AsyncServiceMessage>) -> Self {
        Self { handle }
    }

    pub fn spawn<T>(mut sync: T, depth: usize) -> Self
    where
        T: Service + Sync + Send + 'static
    {
        let (tx, mut rx) = tokio::sync::mpsc::channel(depth);
        tokio::spawn(async move {
            while let Some(msg) = rx.recv().await {
                match msg {
                    AsyncServiceMessage::Echo { return_value, value } => {
                        let result = sync.echo(value);
                        let _ = return_value.send(result);
                    }
                    AsyncServiceMessage::Increment { return_value, a } => {
                        let result = sync.increment(a);
                        let _ = return_value.send(result);
                    }
                    AsyncServiceMessage::Record { return_value, value } => {
                        let result = sync.record(value);
                        let _ = return_value.send(result);
                    }
                    AsyncServiceMessage::History { return_value, } => {
                        let result = sync.history();
                        let _ = return_value.send(result);
                    }
                    AsyncServiceMessage::Slow { return_value, millis } => {
                        let result = sync.slow(millis);
                        let _ = return_value.send(result);
                    }
                }
            }
        });
        Self { handle: tx }
    }

    async fn echo(&self, value: u64) -> u64 {
        let (return_value, response) = tokio::sync::oneshot::channel();
        self.handle.send(AsyncServiceMessage::Echo { return_value, value }).await.expect("Error when sending message to the sync code");
        response.await.expect("Error receiving the response")
    }

    async fn increment(&self, a: u64) -> u64 {
        let (return_value, response) = tokio::sync::oneshot::channel();
        self.handle.send(AsyncServiceMessage::Increment { return_value, a }).await.expect("Error when sending message to the sync code");
        response.await.expect("Error receiving the response")
    }

    async fn record(&self, value: u64) -> () {
        let (return_value, response) = tokio::sync::oneshot::channel();
        self.handle.send(AsyncServiceMessage::Record { return_value, value }).await.expect("Error when sending message to the sync code");
        response.await.expect("Error receiving the response")
    }

    async fn history(&self, ) -> Vec<u64> {
        let (return_value, response) = tokio::sync::oneshot::channel();
        self.handle.send(AsyncServiceMessage::History { return_value, }).await.expect("Error when sending message to the sync code");
        response.await.expect("Error receiving the response")
    }

    async fn slow(&self, millis: u64) -> u64 {
        let (return_value, response) = tokio::sync::oneshot::channel();
        self.handle.send(AsyncServiceMessage::Slow { return_value, millis }).await.expect("Error when sending message to the sync code");
        response.await.expect("Error receiving the response")
    }
}

#[derive(Debug)]
enum AsyncServiceMessage {
    Echo { return_value: tokio::sync::oneshot::Sender<u64>, value: u64 },
    Increment { return_value: tokio::sync::oneshot::Sender<u64>, a: u64 },
    Record { return_value: tokio::sync::oneshot::Sender<()>, value: u64 },
    History { return_value: tokio::sync::oneshot::Sender<Vec<u64>>, },
    Slow { return_value: tokio::sync::oneshot::Sender<u64>, millis: u64 }
}
"#;
