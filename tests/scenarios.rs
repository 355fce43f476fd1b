use rusty_syphon::{
    Backend, Capability, HandleKind, NativeCall, OpenGLClient, OpenGLImage, OpenGLServer, ServerDescription,
    ServerDirectory, GL_TEXTURE_RECTANGLE,
};
use std::collections::{HashMap, HashSet};
use std::sync::atomic::{AtomicUsize, Ordering};
use std::sync::Arc;

const CONTEXT: u64 = 0xC0;

/// What the stand-in framework answers.
#[derive(Debug, PartialEq)]
enum Answer {
    Nothing,
    Handle(u64),
    Flag(bool),
    Count(usize),
    Text(Option<String>),
}

/// An in-memory stand-in for the frame-sharing framework, answering the calls the library
/// plans and firing registered callbacks when a frame is published.
struct Framework {
    next: u64,
    directory: Vec<u64>,
    names: HashMap<u64, String>,
    server_description: HashMap<u64, u64>,
    subscription: HashMap<u64, u64>,
    callbacks: HashMap<u64, Box<dyn Fn() + Send>>,
    pending: HashSet<u64>,
    stopped: HashSet<u64>,
    calls: usize,
}

impl Framework {
    fn new() -> Self {
        Framework {
            next: 0x100,
            directory: Vec::new(),
            names: HashMap::new(),
            server_description: HashMap::new(),
            subscription: HashMap::new(),
            callbacks: HashMap::new(),
            pending: HashSet::new(),
            stopped: HashSet::new(),
            calls: 0,
        }
    }

    fn fresh(&mut self) -> u64 {
        self.next += 0x10;
        self.next
    }

    fn perform(&mut self, call: &NativeCall, callback: Option<Box<dyn Fn() + Send>>) -> Answer {
        self.calls += 1;
        match call {
            NativeCall::DirectoryShared => Answer::Handle(0x10),
            NativeCall::DirectoryCount(_) => Answer::Count(self.directory.len()),
            NativeCall::DirectoryAt(_, i) => Answer::Handle(self.directory.get(*i).copied().unwrap_or(0)),
            NativeCall::CopyName(d) => Answer::Text(self.names.get(d).cloned()),
            NativeCall::CreateServer(_, name, _) => {
                let s = self.fresh();
                let d = self.fresh();
                self.names.insert(d, name.clone());
                self.server_description.insert(s, d);
                self.directory.push(d);
                Answer::Handle(s)
            }
            NativeCall::ServerDescription(_, s) => Answer::Handle(self.server_description[s]),
            NativeCall::HasClients(_, s) => {
                let d = self.server_description[s];
                Answer::Flag(self.subscription.iter().any(|(c, sd)| *sd == d && !self.stopped.contains(c)))
            }
            NativeCall::CreateClient(_, d, _, with_callback) => {
                let c = self.fresh();
                self.subscription.insert(c, *d);
                if *with_callback {
                    self.callbacks.insert(c, callback.expect("storage for a registered callback"));
                }
                Answer::Handle(c)
            }
            NativeCall::PublishTexture(s, _, _, _) => {
                let d = self.server_description[s];
                for (c, sd) in &self.subscription {
                    if *sd == d && !self.stopped.contains(c) {
                        self.pending.insert(*c);
                        if let Some(cb) = self.callbacks.get(c) {
                            cb();
                        }
                    }
                }
                Answer::Nothing
            }
            NativeCall::HasNewFrame(_, c) => Answer::Flag(self.pending.contains(c)),
            NativeCall::NewFrameImage(_, c) => {
                if self.pending.remove(c) {
                    Answer::Handle(self.fresh())
                } else {
                    Answer::Handle(0)
                }
            }
            NativeCall::IsValid(_, c) => Answer::Flag(!self.stopped.contains(c)),
            NativeCall::Stop(_, h) => {
                self.stopped.insert(*h);
                self.callbacks.remove(h);
                Answer::Nothing
            }
            _ => Answer::Nothing,
        }
    }

    fn handle(&mut self, call: &NativeCall) -> u64 {
        match self.perform(call, None) {
            Answer::Handle(h) => h,
            _ => 0,
        }
    }

    fn flag(&mut self, call: Option<NativeCall>) -> bool {
        match call {
            Some(c) => self.perform(&c, None) == Answer::Flag(true),
            None => false,
        }
    }
}

#[test]
fn producer_publishes_and_consumer_receives() {
    let cap = Capability::new(true);
    let mut fw = Framework::new();
    let request = OpenGLServer::create_request(&cap, Some("test-source"), CONTEXT).unwrap();
    assert_eq!(request, NativeCall::CreateServer(Backend::OpenGL, "test-source".to_string(), CONTEXT));
    let raw = fw.handle(&request);
    let mut server = OpenGLServer::new(&cap, CONTEXT, raw).unwrap();
    assert!(!fw.flag(server.has_clients()));

    let raw = fw.handle(&server.server_description().unwrap());
    let description = ServerDescription::owned(&cap, raw).unwrap();
    assert_eq!(fw.perform(&description.name(), None), Answer::Text(Some("test-source".to_string())));

    let counter = Arc::new(AtomicUsize::new(0));
    let seen = Arc::clone(&counter);
    let callback: Box<dyn Fn() + Send> = Box::new(move || {
        seen.fetch_add(1, Ordering::SeqCst);
    });
    let request = OpenGLClient::create_request(&cap, &description, CONTEXT, true).unwrap();
    let raw = match fw.perform(&request, Some(callback)) {
        Answer::Handle(h) => h,
        _ => 0,
    };
    let mut client = OpenGLClient::new(&cap, CONTEXT, raw, true).unwrap();
    assert!(client.has_callback());
    assert!(fw.flag(server.has_clients()));

    let publish = server.publish_frame(5, GL_TEXTURE_RECTANGLE, false).unwrap();
    fw.perform(&publish, None);
    assert!(counter.load(Ordering::SeqCst) >= 1);
    assert!(fw.flag(client.has_new_frame()));
    let raw = fw.handle(&client.new_frame_image().unwrap());
    let image = OpenGLImage::from_raw(&cap, raw).unwrap();
    assert_eq!(image.finish(), NativeCall::Release(HandleKind::Frame(Backend::OpenGL), raw));

    fw.perform(&client.stop().unwrap(), None);
    fw.perform(&server.stop().unwrap(), None);
    assert_eq!(client.stop(), None);
    assert!(!fw.flag(client.is_valid()));
    assert_eq!(client.is_valid(), None);

    // a publish that reached the framework after the stop fires nothing
    let fired = counter.load(Ordering::SeqCst);
    fw.perform(&publish, None);
    assert_eq!(counter.load(Ordering::SeqCst), fired);
    assert_eq!(Arc::strong_count(&counter), 1);

    let client_addr = client.addr();
    let (calls, free_callback) = client.finish();
    let k = HandleKind::Client(Backend::OpenGL);
    assert_eq!(calls, vec![NativeCall::Stop(k, client_addr), NativeCall::Release(k, client_addr)]);
    assert!(free_callback);
    let server_addr = server.addr();
    let k = HandleKind::Server(Backend::OpenGL);
    assert_eq!(server.finish(), vec![NativeCall::Stop(k, server_addr), NativeCall::Release(k, server_addr)]);
    let description_addr = description.addr();
    assert_eq!(description_addr, fw.directory[0]);
    assert_eq!(description.finish(), vec![NativeCall::Release(HandleKind::Description, description_addr)]);
}

#[test]
fn lookup_of_unknown_name_finds_nothing() {
    let cap = Capability::new(true);
    let mut fw = Framework::new();
    for name in ["alpha", "beta", "gamma"] {
        let request = OpenGLServer::create_request(&cap, Some(name), CONTEXT).unwrap();
        fw.handle(&request);
    }
    let dir = ServerDirectory::shared(&cap, fw.handle(&ServerDirectory::shared_request(&cap).unwrap())).unwrap();
    let count = match fw.perform(&dir.servers_count(), None) {
        Answer::Count(n) => n,
        _ => 0,
    };
    assert_eq!(count, 3);
    let mut found = None;
    for i in 0..count {
        let raw = fw.handle(&dir.server_at_index(i, count).unwrap());
        let d = ServerDescription::borrowed(&cap, raw).unwrap();
        if fw.perform(&d.name(), None) == Answer::Text(Some("missing".to_string())) {
            found = Some(i);
        }
        assert!(d.finish().is_empty());
    }
    assert_eq!(found, None);
    assert_eq!(dir.server_at_index(count, count), None);
}

#[test]
fn snapshot_length_equals_count() {
    let cap = Capability::new(true);
    let mut fw = Framework::new();
    for name in ["alpha", "beta", "gamma"] {
        fw.handle(&OpenGLServer::create_request(&cap, Some(name), CONTEXT).unwrap());
    }
    let dir = ServerDirectory::shared(&cap, 0x10).unwrap();
    let count = match fw.perform(&dir.servers_count(), None) {
        Answer::Count(n) => n,
        _ => 0,
    };
    let requests = dir.snapshot_requests(count);
    assert_eq!(
        requests,
        vec![
            NativeCall::DirectoryAt(0x10, 0),
            NativeCall::DirectoryAt(0x10, 1),
            NativeCall::DirectoryAt(0x10, 2),
        ]
    );
    let raws: Vec<u64> = requests.iter().map(|c| fw.handle(c)).collect();
    let servers = dir.servers(&raws);
    assert_eq!(servers.len(), count);
    let names: Vec<Answer> = servers.iter().map(|d| fw.perform(&d.name(), None)).collect();
    assert_eq!(
        names,
        vec![
            Answer::Text(Some("alpha".to_string())),
            Answer::Text(Some("beta".to_string())),
            Answer::Text(Some("gamma".to_string())),
        ]
    );
    assert!(servers.iter().all(|d| !d.is_owned()));
    for d in servers {
        assert!(d.finish().is_empty());
    }
}

#[test]
fn snapshot_skips_null_answers() {
    let cap = Capability::new(true);
    let dir = ServerDirectory::shared(&cap, 0x10).unwrap();
    let servers = dir.servers(&vec![0x21, 0, 0x23]);
    let addrs: Vec<u64> = servers.iter().map(|d| d.addr()).collect();
    assert_eq!(addrs, vec![0x21, 0x23]);
    assert!(dir.servers(&vec![]).is_empty());
    assert!(dir.snapshot_requests(0).is_empty());
    assert!(ServerDirectory::shared(&cap, 0).is_none());
}

#[test]
fn absent_service_reaches_the_framework_never() {
    let cap = Capability::unavailable();
    let fw = Framework::new();
    assert!(ServerDirectory::shared_request(&cap).is_none());
    assert!(OpenGLServer::create_request(&cap, Some("test-source"), CONTEXT).is_none());
    assert_eq!(fw.calls, 0);
}
