//! Plain value records of the platform, and the resize control message.

use vstd::prelude::*;
use vstd::string::*;

verus! {

/// Lifecycle state of a container as the platform reports it.
#[derive(Debug, Clone, Copy, PartialEq, Eq, Structural)]
pub enum ContainerStatus {
    Running,
    Stopped,
    Creating,
    Error,
    Unknown,
}

/// A container (sandbox) on the platform.
#[derive(Debug, Clone)]
pub struct Container {
    pub id: String,
    pub name: String,
    pub image: String,
    pub status: String,
    pub created_at: String,
    pub started_at: Option<String>,
    /// Labels, as key and value pairs.
    pub labels: Vec<(String, String)>,
    /// Environment variables, as key and value pairs.
    pub environment: Vec<(String, String)>,
}

/// Metadata of a file or a directory inside a container.
#[derive(Debug, Clone)]
pub struct FileInfo {
    pub name: String,
    pub path: String,
    pub size: u64,
    pub mode: String,
    pub mod_time: String,
    pub is_dir: bool,
}

/// No key occurs twice.
pub open spec fn keys_unique(entries: Seq<(String, String)>) -> bool {
    forall|i: int, j: int|
        0 <= i < j < entries.len() ==> #[trigger] entries[i].0@ != #[trigger] entries[j].0@
}

/// Sets `key` to `value` in an association list: an existing entry is replaced
/// in place, a new key is appended.
fn insert_entry(entries: &mut Vec<(String, String)>, key: String, value: String)
    requires
        keys_unique(old(entries)@),
    ensures
        keys_unique(final(entries)@),
        forall|i: int|
            0 <= i < old(entries)@.len() && #[trigger] old(entries)@[i].0@ == key@
                ==> final(entries)@ == old(entries)@.update(i, (key, value)),
        (forall|i: int| 0 <= i < old(entries)@.len() ==> old(entries)@[i].0@ != key@)
            ==> final(entries)@ == old(entries)@.push((key, value)),
{
    let mut i: usize = 0;
    while i < entries.len()
        invariant
            i <= entries@.len(),
            entries@ == old(entries)@,
            keys_unique(entries@),
            forall|j: int| 0 <= j < i ==> entries@[j].0@ != key@,
        decreases entries@.len() - i,
    {
        if entries[i].0 == key {
            let ghost before = entries@;
            entries.set(i, (key, value));
            assert(forall|j: int|
                0 <= j < entries@.len() && j != i ==> entries@[j] == before[j]);
            return;
        }
        i = i + 1;
    }
    entries.push((key, value));
}

/// A request to create a container.
#[derive(Debug, Clone)]
pub struct CreateContainerRequest {
    /// Image to run.
    pub image: String,
    /// Optional container name.
    pub name: Option<String>,
    /// Environment variables, each key at most once.
    pub environment: Vec<(String, String)>,
    /// Labels, each key at most once.
    pub labels: Vec<(String, String)>,
}

impl CreateContainerRequest {
    /// Both association lists hold each key at most once.
    pub open spec fn wf(&self) -> bool {
        keys_unique(self.environment@) && keys_unique(self.labels@)
    }

    /// A request for `image` with no name, environment or labels.
    pub fn new(image: &str) -> (r: CreateContainerRequest)
        ensures
            r.wf(),
            r.image@ == image@,
            r.name is None,
            r.environment@.len() == 0,
            r.labels@.len() == 0,
    {
        CreateContainerRequest {
            image: image.to_owned(),
            name: None,
            environment: Vec::new(),
            labels: Vec::new(),
        }
    }

    /// Sets the container name.
    pub fn name(self, name: &str) -> (r: CreateContainerRequest)
        ensures
            r.name matches Some(n) && n@ == name@,
            r.image == self.image,
            r.environment == self.environment,
            r.labels == self.labels,
    {
        CreateContainerRequest { name: Some(name.to_owned()), ..self }
    }

    /// Sets the environment variable `key` to `value`, replacing an earlier value.
    pub fn env(self, key: &str, value: &str) -> (r: CreateContainerRequest)
        requires
            self.wf(),
        ensures
            r.wf(),
            r.image == self.image,
            r.name == self.name,
            r.labels == self.labels,
            forall|i: int|
                0 <= i < self.environment@.len() && #[trigger] self.environment@[i].0@ == key@
                    ==> r.environment@.len() == self.environment@.len() && r.environment@[i].0@
                    == key@ && r.environment@[i].1@ == value@ && (forall|j: int|
                    0 <= j < r.environment@.len() && j != i ==> r.environment@[j]
                        == self.environment@[j]),
            (forall|i: int|
                0 <= i < self.environment@.len() ==> self.environment@[i].0@ != key@)
                ==> r.environment@.len() == self.environment@.len() + 1 && r.environment@.last().0@
                == key@ && r.environment@.last().1@ == value@ && r.environment@.drop_last()
                == self.environment@,
    {
        let mut r = self;
        insert_entry(&mut r.environment, key.to_owned(), value.to_owned());
        r
    }

    /// Sets the label `key` to `value`, replacing an earlier value.
    pub fn label(self, key: &str, value: &str) -> (r: CreateContainerRequest)
        requires
            self.wf(),
        ensures
            r.wf(),
            r.image == self.image,
            r.name == self.name,
            r.environment == self.environment,
            forall|i: int|
                0 <= i < self.labels@.len() && #[trigger] self.labels@[i].0@ == key@
                    ==> r.labels@.len() == self.labels@.len() && r.labels@[i].0@ == key@
                    && r.labels@[i].1@ == value@ && (forall|j: int|
                    0 <= j < r.labels@.len() && j != i ==> r.labels@[j] == self.labels@[j]),
            (forall|i: int| 0 <= i < self.labels@.len() ==> self.labels@[i].0@ != key@)
                ==> r.labels@.len() == self.labels@.len() + 1 && r.labels@.last().0@ == key@
                && r.labels@.last().1@ == value@ && r.labels@.drop_last() == self.labels@,
    {
        let mut r = self;
        insert_entry(&mut r.labels, key.to_owned(), value.to_owned());
        r
    }
}

/// The decimal digit character of `d`.
pub open spec fn digit_char(d: nat) -> char {
    if d == 0 { '0' } else if d == 1 { '1' } else if d == 2 { '2' } else if d == 3 { '3' }
    else if d == 4 { '4' } else if d == 5 { '5' } else if d == 6 { '6' } else if d == 7 { '7' }
    else if d == 8 { '8' } else { '9' }
}

/// The decimal notation of `n`, without leading zeros.
pub open spec fn decimal(n: nat) -> Seq<char>
    decreases n,
{
    if n < 10 {
        seq![digit_char(n)]
    } else {
        decimal(n / 10) + seq![digit_char(n % 10)]
    }
}

/// The JSON text of a resize control message.
pub open spec fn resize_json(cols: u16, rows: u16) -> Seq<char> {
    "{\"type\":\"resize\",\"cols\":"@ + decimal(cols as nat) + ",\"rows\":"@ + decimal(
        rows as nat,
    ) + "}"@
}

fn digit_str(d: u16) -> (r: &'static str)
    requires
        d < 10,
    ensures
        r@ == seq![digit_char(d as nat)],
{
    proof {
        reveal_strlit("0");
        reveal_strlit("1");
        reveal_strlit("2");
        reveal_strlit("3");
        reveal_strlit("4");
        reveal_strlit("5");
        reveal_strlit("6");
        reveal_strlit("7");
        reveal_strlit("8");
        reveal_strlit("9");
    }
    match d {
        0 => "0",
        1 => "1",
        2 => "2",
        3 => "3",
        4 => "4",
        5 => "5",
        6 => "6",
        7 => "7",
        8 => "8",
        _ => "9",
    }
}

/// Appends the decimal notation of `n` to `out`.
pub(crate) fn push_decimal(out: &mut String, n: u16)
    ensures
        final(out)@ == old(out)@ + decimal(n as nat),
    decreases n,
{
    if n >= 10 {
        push_decimal(out, n / 10);
    }
    out.append(digit_str(n % 10));
    assert(final(out)@ =~= old(out)@ + decimal(n as nat));
}

/// The control message that tells the remote terminal its viewport size.
#[derive(Debug, Clone)]
pub struct ResizeMessage {
    /// The message tag, always `resize`.
    pub msg_type: String,
    pub cols: u16,
    pub rows: u16,
}

impl ResizeMessage {
    /// The tag is the fixed word `resize`.
    pub open spec fn wf(&self) -> bool {
        self.msg_type@ == "resize"@
    }

    /// A resize message for a viewport of `cols` by `rows`.
    pub fn new(cols: u16, rows: u16) -> (r: ResizeMessage)
        ensures
            r.wf(),
            r.cols == cols,
            r.rows == rows,
    {
        ResizeMessage { msg_type: "resize".to_owned(), cols, rows }
    }

    /// The JSON text sent for this message.
    pub fn to_json(&self) -> (r: String)
        requires
            self.wf(),
        ensures
            r@ == resize_json(self.cols, self.rows),
    {
        let mut out = "{\"type\":\"resize\",\"cols\":".to_owned();
        push_decimal(&mut out, self.cols);
        out.append(",\"rows\":");
        push_decimal(&mut out, self.rows);
        out.append("}");
        out
    }
}

} // verus!
