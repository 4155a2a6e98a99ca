//! Command line values and the validated runtime configuration.

use vstd::prelude::*;

use crate::text::clone_texts;
use crate::text::cut;
use crate::text::cut_text;
use crate::text::has_char;
use crate::text::is_blank_text;
use crate::text::join2;
use crate::text::join3;
use crate::text::lemma_blank_is_trimmed_away;
use crate::text::lemma_cut_splits;
use crate::text::lemma_trimmed_is_inside;
use crate::text::quoted;
use crate::text::quoted_text;
use crate::text::same_text;
use crate::text::texts;
use crate::text::trim;
use crate::text::trimmed;
use crate::time::Duration;

verus! {

/// Default Hugging Face repository bundling the Laya checkpoints.
pub const DEFAULT_MODEL: &'static str = "convaiinnovations/laya";

/// Root of the project-local model tree.
pub const LOCAL_MODEL_ROOT: &'static str = ".layad/model";

/// The interpreter of the project-local Python environment.
pub const LOCAL_PYTHON: &'static str = ".venv/bin/python";

/// The interpreter that is used where there is no project-local one.
pub const SYSTEM_PYTHON: &'static str = "python3";

/// Default address to bind.
pub const DEFAULT_BIND: &'static str = "127.0.0.1:8787";

/// Default worker script.
pub const DEFAULT_WORKER_SCRIPT: &'static str = "python/worker.py";

/// Default tracing filter.
pub const DEFAULT_LOG: &'static str = "info";

/// Default limit on the size of a request body, in bytes.
pub const DEFAULT_MAX_BODY_BYTES: usize = 1_048_576;

/// Default limit on the number of named questions in a request: a full pool of skills,
/// one question each, fits into one request.
pub const DEFAULT_MAX_QUESTIONS: usize = 64;

/// Default limit on the number of predictions that are admitted at once: the requests of a
/// caller that asks about each of its skills in parallel are all admitted.
pub const DEFAULT_MAX_CONCURRENT: usize = 24;

/// Default limit on the size of a worker frame, in bytes.
pub const DEFAULT_MAX_RESPONSE_BYTES: usize = 8_388_608;

/// Default deadline for loading the model, in milliseconds.
pub const DEFAULT_STARTUP_TIMEOUT_MS: u64 = 600_000;

/// Default deadline for one prediction, in milliseconds.
pub const DEFAULT_INFERENCE_TIMEOUT_MS: u64 = 60_000;

/// Default deadline for a graceful stop of the worker, in milliseconds.
pub const DEFAULT_SHUTDOWN_TIMEOUT_MS: u64 = 10_000;

/// Which checkpoint inside the model repository to run.
#[derive(Debug, Clone, Copy, PartialEq, Eq, Structural)]
pub enum Checkpoint {
    /// Repository root: the English checkpoint (default).
    English,
    /// `multilingual/` subfolder.
    Multilingual,
    /// `typed-decisions/` subfolder.
    TypedDecisions,
}

impl Checkpoint {
    /// The name of the checkpoint.
    pub open spec fn name(self) -> Seq<char> {
        match self {
            Checkpoint::English => "english"@,
            Checkpoint::Multilingual => "multilingual"@,
            Checkpoint::TypedDecisions => "typed-decisions"@,
        }
    }

    /// The subfolder that holds the checkpoint; the English one is at the root.
    pub open spec fn folder(self) -> Option<Seq<char>> {
        match self {
            Checkpoint::English => None,
            _ => Some(self.name()),
        }
    }

    /// The checkpoint with the given name, if there is one.
    pub open spec fn named(name: Seq<char>) -> Option<Checkpoint> {
        if name == "english"@ {
            Some(Checkpoint::English)
        } else if name == "multilingual"@ {
            Some(Checkpoint::Multilingual)
        } else if name == "typed-decisions"@ {
            Some(Checkpoint::TypedDecisions)
        } else {
            None
        }
    }

    /// The checkpoint with the given name, if there is one.
    pub fn from_name(name: &str) -> (res: Option<Checkpoint>)
        ensures
            res == Checkpoint::named(name@),
            match res {
                Some(checkpoint) => checkpoint.name() == name@,
                None => forall|checkpoint: Checkpoint| #[trigger] checkpoint.name() != name@,
            },
    {
        if same_text(name, "english") {
            Some(Checkpoint::English)
        } else if same_text(name, "multilingual") {
            Some(Checkpoint::Multilingual)
        } else if same_text(name, "typed-decisions") {
            Some(Checkpoint::TypedDecisions)
        } else {
            None
        }
    }

    pub fn as_str(self) -> (res: &'static str)
        ensures
            res@ == self.name(),
    {
        match self {
            Checkpoint::English => "english",
            Checkpoint::Multilingual => "multilingual",
            Checkpoint::TypedDecisions => "typed-decisions",
        }
    }

    /// Subfolder passed to `laya.load`, or `None` for the repository root.
    pub fn subfolder(self) -> (res: Option<&'static str>)
        ensures
            match res {
                Some(folder) => self.folder() == Some(folder@),
                None => self.folder() is None,
            },
    {
        match self {
            Checkpoint::English => None,
            Checkpoint::Multilingual => Some("multilingual"),
            Checkpoint::TypedDecisions => Some("typed-decisions"),
        }
    }

    /// Directory name of the project-local copy of the checkpoint.
    pub fn dir_name(self) -> (res: &'static str)
        ensures
            res@ == self.name(),
    {
        match self {
            Checkpoint::English => "english",
            Checkpoint::Multilingual => "multilingual",
            Checkpoint::TypedDecisions => "typed-decisions",
        }
    }
}

/// Device requested for the resident model.
#[derive(Debug, Clone, Copy, PartialEq, Eq, Structural)]
pub enum Device {
    /// Reliable default everywhere.
    Cpu,
    /// Apple silicon GPU.
    Mps,
    /// NVIDIA GPU (CUDA build of PyTorch required).
    Cuda,
    /// Let Laya pick: CUDA, then MPS, then CPU.
    Auto,
}

impl Device {
    /// The name of the device.
    pub open spec fn name(self) -> Seq<char> {
        match self {
            Device::Cpu => "cpu"@,
            Device::Mps => "mps"@,
            Device::Cuda => "cuda"@,
            Device::Auto => "auto"@,
        }
    }

    /// The device with the given name, if there is one.
    pub open spec fn named(name: Seq<char>) -> Option<Device> {
        if name == "cpu"@ {
            Some(Device::Cpu)
        } else if name == "mps"@ {
            Some(Device::Mps)
        } else if name == "cuda"@ {
            Some(Device::Cuda)
        } else if name == "auto"@ {
            Some(Device::Auto)
        } else {
            None
        }
    }

    /// The device with the given name, if there is one.
    pub fn from_name(name: &str) -> (res: Option<Device>)
        ensures
            res == Device::named(name@),
            match res {
                Some(device) => device.name() == name@,
                None => forall|device: Device| #[trigger] device.name() != name@,
            },
    {
        if same_text(name, "cpu") {
            Some(Device::Cpu)
        } else if same_text(name, "mps") {
            Some(Device::Mps)
        } else if same_text(name, "cuda") {
            Some(Device::Cuda)
        } else if same_text(name, "auto") {
            Some(Device::Auto)
        } else {
            None
        }
    }

    pub fn as_str(self) -> (res: &'static str)
        ensures
            res@ == self.name(),
    {
        match self {
            Device::Cpu => "cpu",
            Device::Mps => "mps",
            Device::Cuda => "cuda",
            Device::Auto => "auto",
        }
    }
}

/// The name of a checkpoint reads back as that checkpoint, so different checkpoints have
/// different names.
pub proof fn lemma_checkpoint_names_read_back(checkpoint: Checkpoint, other: Checkpoint)
    ensures
        Checkpoint::named(checkpoint.name()) == Some(checkpoint),
        checkpoint.name() == other.name() ==> checkpoint == other,
{
    reveal_strlit("english");
    reveal_strlit("multilingual");
    reveal_strlit("typed-decisions");
    assert("english"@.len() == 7 && "multilingual"@.len() == 12 && "typed-decisions"@.len() == 15);
}

/// The name of a device reads back as that device, so different devices have different names.
pub proof fn lemma_device_names_read_back(device: Device, other: Device)
    ensures
        Device::named(device.name()) == Some(device),
        device.name() == other.name() ==> device == other,
{
    reveal_strlit("cpu");
    reveal_strlit("mps");
    reveal_strlit("cuda");
    reveal_strlit("auto");
    assert("cpu"@.len() == 3 && "mps"@.len() == 3 && "cuda"@.len() == 4 && "auto"@.len() == 4);
    assert("cpu"@[0] == 'c' && "mps"@[0] == 'm' && "cuda"@[0] == 'c' && "auto"@[0] == 'a');
}

/// Default interpreter: the project-local one where it is a file.
pub fn default_python(local_is_file: bool) -> (res: String)
    ensures
        res@ == (if local_is_file {
            LOCAL_PYTHON@
        } else {
            SYSTEM_PYTHON@
        }),
{
    if local_is_file {
        LOCAL_PYTHON.to_owned()
    } else {
        SYSTEM_PYTHON.to_owned()
    }
}

/// Default model: the project-local copy where it is a directory (so the daemon starts
/// entirely offline), otherwise the upstream repository.
pub fn default_model(local_is_dir: bool) -> (res: String)
    ensures
        res@ == (if local_is_dir {
            LOCAL_MODEL_ROOT@
        } else {
            DEFAULT_MODEL@
        }),
{
    if local_is_dir {
        LOCAL_MODEL_ROOT.to_owned()
    } else {
        DEFAULT_MODEL.to_owned()
    }
}

/// An IP address: the four bytes of one of version 4, or the number that one of version 6 is.
#[derive(Debug, Clone, Copy, PartialEq, Eq, Structural)]
pub enum IpAddress {
    V4(u8, u8, u8, u8),
    V6(u128),
}

impl IpAddress {
    /// Whether the address is reached from the same machine only: `127.0.0.0/8` or `::1`.
    pub open spec fn is_local(self) -> bool {
        match self {
            IpAddress::V4(first, _, _, _) => first == 127,
            IpAddress::V6(number) => number == 1,
        }
    }

    /// Whether the address is a loopback address.
    pub fn is_loopback(self) -> (res: bool)
        ensures
            res == self.is_local(),
    {
        match self {
            IpAddress::V4(first, _, _, _) => first == 127,
            IpAddress::V6(number) => number == 1,
        }
    }
}

/// An address to bind, and how it is written.
#[derive(Debug)]
pub struct BindAddress {
    pub ip: IpAddress,
    pub port: u16,
    pub text: String,
}

/// The mathematical reading of a [`BindAddress`].
pub struct BindView {
    pub ip: IpAddress,
    pub port: u16,
    pub text: Seq<char>,
}

impl View for BindAddress {
    type V = BindView;

    open spec fn view(&self) -> BindView {
        BindView { ip: self.ip, port: self.port, text: self.text@ }
    }
}

impl Clone for BindAddress {
    fn clone(&self) -> (res: Self)
        ensures
            res@ == self@,
    {
        BindAddress { ip: self.ip, port: self.port, text: self.text.clone() }
    }
}

/// Values of the command line.
#[derive(Debug)]
pub struct Cli {
    /// Address to bind. Must be a loopback address.
    pub bind: String,
    /// Python interpreter (or executable) that runs the worker.
    pub python: String,
    /// Worker script passed to the interpreter. Empty string runs the program directly.
    pub worker_script: String,
    /// Extra arguments appended to the worker command line.
    pub worker_args: Vec<String>,
    /// Hugging Face model id, or a local directory.
    pub model: String,
    /// Checkpoint inside the model repository.
    pub checkpoint: Checkpoint,
    /// Device for the resident model.
    pub device: Device,
    /// Environment variables for the worker, `KEY=VALUE`.
    pub python_env: Vec<String>,
    /// Maximum request body size in bytes.
    pub max_body_bytes: usize,
    /// Maximum number of named questions per request.
    pub max_questions: usize,
    /// Maximum number of predictions admitted at once.
    pub max_concurrent: usize,
    /// Maximum worker response frame size in bytes.
    pub max_response_bytes: usize,
    /// Deadline for the worker to load the model and warm up.
    pub startup_timeout_ms: u64,
    /// Deadline for one prediction round trip.
    pub inference_timeout_ms: u64,
    /// Deadline for graceful worker shutdown before it is signalled.
    pub shutdown_timeout_ms: u64,
    /// Keep running (unready, failing closed) when the worker dies instead of exiting for a
    /// supervisor to restart.
    pub no_fail_fast: bool,
    /// Tracing filter.
    pub log: String,
}

/// The mathematical reading of a [`Cli`].
pub struct CliView {
    pub bind: Seq<char>,
    pub python: Seq<char>,
    pub worker_script: Seq<char>,
    pub worker_args: Seq<Seq<char>>,
    pub model: Seq<char>,
    pub checkpoint: Checkpoint,
    pub device: Device,
    pub python_env: Seq<Seq<char>>,
    pub max_body_bytes: usize,
    pub max_questions: usize,
    pub max_concurrent: usize,
    pub max_response_bytes: usize,
    pub startup_timeout_ms: u64,
    pub inference_timeout_ms: u64,
    pub shutdown_timeout_ms: u64,
    pub no_fail_fast: bool,
    pub log: Seq<char>,
}

impl View for Cli {
    type V = CliView;

    open spec fn view(&self) -> CliView {
        CliView {
            bind: self.bind@,
            python: self.python@,
            worker_script: self.worker_script@,
            worker_args: texts(self.worker_args@),
            model: self.model@,
            checkpoint: self.checkpoint,
            device: self.device,
            python_env: texts(self.python_env@),
            max_body_bytes: self.max_body_bytes,
            max_questions: self.max_questions,
            max_concurrent: self.max_concurrent,
            max_response_bytes: self.max_response_bytes,
            startup_timeout_ms: self.startup_timeout_ms,
            inference_timeout_ms: self.inference_timeout_ms,
            shutdown_timeout_ms: self.shutdown_timeout_ms,
            no_fail_fast: self.no_fail_fast,
            log: self.log@,
        }
    }
}

impl Cli {
    /// The values of an empty command line, for the given interpreter and model.
    pub fn defaults(python: String, model: String) -> (res: Self)
        ensures
            res@ == (CliView {
                bind: DEFAULT_BIND@,
                python: python@,
                worker_script: DEFAULT_WORKER_SCRIPT@,
                worker_args: Seq::empty(),
                model: model@,
                checkpoint: Checkpoint::English,
                device: Device::Cpu,
                python_env: Seq::empty(),
                max_body_bytes: DEFAULT_MAX_BODY_BYTES,
                max_questions: DEFAULT_MAX_QUESTIONS,
                max_concurrent: DEFAULT_MAX_CONCURRENT,
                max_response_bytes: DEFAULT_MAX_RESPONSE_BYTES,
                startup_timeout_ms: DEFAULT_STARTUP_TIMEOUT_MS,
                inference_timeout_ms: DEFAULT_INFERENCE_TIMEOUT_MS,
                shutdown_timeout_ms: DEFAULT_SHUTDOWN_TIMEOUT_MS,
                no_fail_fast: false,
                log: DEFAULT_LOG@,
            }),
    {
        let res = Cli {
            bind: DEFAULT_BIND.to_owned(),
            python,
            worker_script: DEFAULT_WORKER_SCRIPT.to_owned(),
            worker_args: Vec::new(),
            model,
            checkpoint: Checkpoint::English,
            device: Device::Cpu,
            python_env: Vec::new(),
            max_body_bytes: DEFAULT_MAX_BODY_BYTES,
            max_questions: DEFAULT_MAX_QUESTIONS,
            max_concurrent: DEFAULT_MAX_CONCURRENT,
            max_response_bytes: DEFAULT_MAX_RESPONSE_BYTES,
            startup_timeout_ms: DEFAULT_STARTUP_TIMEOUT_MS,
            inference_timeout_ms: DEFAULT_INFERENCE_TIMEOUT_MS,
            shutdown_timeout_ms: DEFAULT_SHUTDOWN_TIMEOUT_MS,
            no_fail_fast: false,
            log: DEFAULT_LOG.to_owned(),
        };
        assert(res@.worker_args =~= Seq::empty());
        assert(res@.python_env =~= Seq::empty());
        res
    }
}

/// Validated configuration used by the rest of the daemon.
#[derive(Debug)]
pub struct Config {
    pub bind: BindAddress,
    pub python: String,
    pub worker_script: String,
    pub worker_args: Vec<String>,
    pub model: String,
    pub checkpoint: Checkpoint,
    pub device: Device,
    pub python_env: Vec<(String, String)>,
    pub max_body_bytes: usize,
    pub max_questions: usize,
    pub max_concurrent: usize,
    pub max_response_bytes: usize,
    pub startup_timeout: Duration,
    pub inference_timeout: Duration,
    pub shutdown_timeout: Duration,
    pub fail_fast: bool,
    pub log: String,
}

/// The mathematical reading of a [`Config`].
pub struct ConfigView {
    pub bind: BindView,
    pub python: Seq<char>,
    pub worker_script: Seq<char>,
    pub worker_args: Seq<Seq<char>>,
    pub model: Seq<char>,
    pub checkpoint: Checkpoint,
    pub device: Device,
    pub python_env: Seq<(Seq<char>, Seq<char>)>,
    pub max_body_bytes: usize,
    pub max_questions: usize,
    pub max_concurrent: usize,
    pub max_response_bytes: usize,
    pub startup_timeout: Duration,
    pub inference_timeout: Duration,
    pub shutdown_timeout: Duration,
    pub fail_fast: bool,
    pub log: Seq<char>,
}

/// The names and values of a list of variables.
pub open spec fn variables(pairs: Seq<(String, String)>) -> Seq<(Seq<char>, Seq<char>)> {
    Seq::new(pairs.len(), |i: int| (pairs[i].0@, pairs[i].1@))
}

impl View for Config {
    type V = ConfigView;

    open spec fn view(&self) -> ConfigView {
        ConfigView {
            bind: self.bind@,
            python: self.python@,
            worker_script: self.worker_script@,
            worker_args: texts(self.worker_args@),
            model: self.model@,
            checkpoint: self.checkpoint,
            device: self.device,
            python_env: variables(self.python_env@),
            max_body_bytes: self.max_body_bytes,
            max_questions: self.max_questions,
            max_concurrent: self.max_concurrent,
            max_response_bytes: self.max_response_bytes,
            startup_timeout: self.startup_timeout,
            inference_timeout: self.inference_timeout,
            shutdown_timeout: self.shutdown_timeout,
            fail_fast: self.fail_fast,
            log: self.log@,
        }
    }
}

/// What there is to say of a variable that is not written as `KEY=VALUE`.
pub open spec fn variable_text(got: Seq<char>) -> Seq<char> {
    "--python-env expects KEY=VALUE, got "@ + quoted_text(got)
}

/// What is wrong with the first variable whose name is none, if there is one.
pub open spec fn variables_fault(pairs: Seq<(Seq<char>, Seq<char>)>) -> Option<Seq<char>>
    decreases pairs.len(),
{
    if pairs.len() == 0 {
        None
    } else if pairs[0].0.len() == 0 || pairs[0].0.contains('=') {
        Some(variable_text(pairs[0].1))
    } else {
        variables_fault(pairs.skip(1))
    }
}

impl ConfigView {
    /// Why the configuration is refused, if it is.
    pub open spec fn fault(self) -> Option<Seq<char>> {
        if !self.bind.ip.is_local() {
            Some(
                "refusing to bind "@ + self.bind.text
                    + ": layad is an unauthenticated local service and only serves loopback addresses"@,
            )
        } else if self.max_body_bytes == 0 {
            Some("--max-body-bytes must be greater than zero"@)
        } else if self.max_questions == 0 {
            Some("--max-questions must be greater than zero"@)
        } else if self.max_concurrent == 0 {
            Some("--max-concurrent must be greater than zero"@)
        } else if self.max_response_bytes == 0 {
            Some("--max-response-bytes must be greater than zero"@)
        } else if variables_fault(self.python_env) is Some {
            variables_fault(self.python_env)
        } else if self.python.len() == 0 {
            Some("--python must not be empty"@)
        } else {
            None
        }
    }

    /// The arguments of the worker command line.
    pub open spec fn worker_arguments(self) -> Seq<Seq<char>> {
        let script = if self.worker_script.len() == 0 {
            Seq::<Seq<char>>::empty()
        } else {
            seq![self.worker_script]
        };
        let place = match self.checkpoint.folder() {
            Some(folder) => seq!["--subfolder"@, folder],
            None => Seq::empty(),
        };
        script + seq!["--model"@, self.model, "--device"@, self.device.name()] + place
            + self.worker_args
    }
}

/// What is wrong with the first item that is no `KEY=VALUE`, if there is one.
pub open spec fn items_fault(items: Seq<Seq<char>>) -> Option<Seq<char>>
    decreases items.len(),
{
    if items.len() == 0 {
        None
    } else if cut_text(items[0], '=') is None {
        Some(variable_text(items[0]))
    } else {
        items_fault(items.skip(1))
    }
}

/// The variable that a `KEY=VALUE` item sets; white space around the name does not count.
pub open spec fn item_variable(item: Seq<char>) -> (Seq<char>, Seq<char>) {
    match cut_text(item, '=') {
        Some((name, value)) => (trimmed(name), value),
        None => (item, Seq::empty()),
    }
}

/// The variables that a list of `KEY=VALUE` items sets.
pub open spec fn item_variables(items: Seq<Seq<char>>) -> Seq<(Seq<char>, Seq<char>)> {
    Seq::new(items.len(), |i: int| item_variable(items[i]))
}

/// The configuration that the command line asks for.
pub open spec fn requested_config(cli: CliView, bind: BindView) -> ConfigView {
    ConfigView {
        bind,
        python: cli.python,
        worker_script: cli.worker_script,
        worker_args: cli.worker_args,
        model: cli.model,
        checkpoint: cli.checkpoint,
        device: cli.device,
        python_env: item_variables(cli.python_env),
        max_body_bytes: cli.max_body_bytes,
        max_questions: cli.max_questions,
        max_concurrent: cli.max_concurrent,
        max_response_bytes: cli.max_response_bytes,
        startup_timeout: Duration::of_millis(cli.startup_timeout_ms),
        inference_timeout: Duration::of_millis(cli.inference_timeout_ms),
        shutdown_timeout: Duration::of_millis(cli.shutdown_timeout_ms),
        fail_fast: !cli.no_fail_fast,
        log: cli.log,
    }
}

/// The mathematical reading of an address that was read.
pub open spec fn bind_view(bind: Result<BindAddress, String>) -> Result<BindView, Seq<char>> {
    match bind {
        Ok(bind) => Ok(bind@),
        Err(fault) => Err(fault@),
    }
}

/// The configuration that the command line asks for, or why it is refused.
pub open spec fn configured(cli: CliView, bind: Result<BindView, Seq<char>>) -> Result<
    ConfigView,
    Seq<char>,
> {
    match bind {
        Err(fault) => Err("invalid --bind "@ + quoted_text(cli.bind) + ": "@ + fault),
        Ok(bind) => match items_fault(cli.python_env) {
            Some(fault) => Err(fault),
            None => {
                let config = requested_config(cli, bind);
                match config.fault() {
                    Some(fault) => Err(fault),
                    None => Ok(config),
                }
            },
        },
    }
}

fn not_a_variable(got: &str) -> (res: String)
    ensures
        res@ == variable_text(got@),
{
    join2("--python-env expects KEY=VALUE, got ", quoted(got).as_str())
}

fn check_variables(pairs: &Vec<(String, String)>) -> (res: Option<String>)
    ensures
        match res {
            Some(fault) => variables_fault(variables(pairs@)) == Some(fault@),
            None => variables_fault(variables(pairs@)) is None,
        },
{
    let ghost all = variables(pairs@);
    let mut i: usize = 0;
    assert(all.skip(0) =~= all);
    while i < pairs.len()
        invariant
            i <= pairs@.len(),
            all == variables(pairs@),
            variables_fault(all) == variables_fault(all.skip(i as int)),
        decreases pairs@.len() - i,
    {
        let ghost rest = all.skip(i as int);
        assert(rest[0] == all[i as int]);
        assert(rest.skip(1) =~= all.skip(i + 1));
        let name = pairs[i].0.as_str();
        if name.is_empty() || has_char(name, '=') {
            return Some(not_a_variable(pairs[i].1.as_str()));
        }
        i = i + 1;
    }
    None
}

fn read_variables(items: &Vec<String>) -> (res: Result<Vec<(String, String)>, String>)
    ensures
        match res {
            Ok(pairs) => {
                &&& items_fault(texts(items@)) is None
                &&& variables(pairs@) == item_variables(texts(items@))
            },
            Err(fault) => items_fault(texts(items@)) == Some(fault@),
        },
{
    let ghost all = texts(items@);
    let mut pairs: Vec<(String, String)> = Vec::new();
    let mut i: usize = 0;
    assert(all.skip(0) =~= all);
    while i < items.len()
        invariant
            i <= items@.len(),
            all == texts(items@),
            items_fault(all) == items_fault(all.skip(i as int)),
            pairs@.len() == i,
            forall|j: int|
                0 <= j < i ==> ((#[trigger] pairs@[j]).0@, pairs@[j].1@) == item_variable(all[j]),
        decreases items@.len() - i,
    {
        let ghost rest = all.skip(i as int);
        assert(rest[0] == all[i as int]);
        assert(rest.skip(1) =~= all.skip(i + 1));
        match cut(items[i].as_str(), '=') {
            Some((name, value)) => {
                pairs.push((trim(name.as_str()), value));
            },
            None => {
                return Err(not_a_variable(items[i].as_str()));
            },
        }
        i = i + 1;
    }
    assert(variables(pairs@) =~= item_variables(all));
    Ok(pairs)
}

fn clone_variables(pairs: &Vec<(String, String)>) -> (res: Vec<(String, String)>)
    ensures
        variables(res@) == variables(pairs@),
{
    let mut copy: Vec<(String, String)> = Vec::new();
    let mut i: usize = 0;
    while i < pairs.len()
        invariant
            i <= pairs@.len(),
            copy@.len() == i,
            forall|j: int|
                0 <= j < i ==> (#[trigger] copy@[j]).0@ == pairs@[j].0@ && copy@[j].1@
                    == pairs@[j].1@,
        decreases pairs@.len() - i,
    {
        copy.push((pairs[i].0.clone(), pairs[i].1.clone()));
        i = i + 1;
    }
    assert(variables(copy@) =~= variables(pairs@));
    copy
}

impl Clone for Config {
    fn clone(&self) -> (res: Self)
        ensures
            res@ == self@,
    {
        Config {
            bind: self.bind.clone(),
            python: self.python.clone(),
            worker_script: self.worker_script.clone(),
            worker_args: clone_texts(&self.worker_args),
            model: self.model.clone(),
            checkpoint: self.checkpoint,
            device: self.device,
            python_env: clone_variables(&self.python_env),
            max_body_bytes: self.max_body_bytes,
            max_questions: self.max_questions,
            max_concurrent: self.max_concurrent,
            max_response_bytes: self.max_response_bytes,
            startup_timeout: self.startup_timeout,
            inference_timeout: self.inference_timeout,
            shutdown_timeout: self.shutdown_timeout,
            fail_fast: self.fail_fast,
            log: self.log.clone(),
        }
    }
}

impl Config {
    /// Reject configurations that would break the daemon's safety properties.
    pub fn validate(&self) -> (res: Result<(), String>)
        ensures
            match res {
                Ok(_) => self@.fault() is None,
                Err(fault) => self@.fault() == Some(fault@),
            },
    {
        if !self.bind.ip.is_loopback() {
            return Err(
                join3(
                    "refusing to bind ",
                    self.bind.text.as_str(),
                    ": layad is an unauthenticated local service and only serves loopback addresses",
                ),
            );
        }
        if self.max_body_bytes == 0 {
            return Err("--max-body-bytes must be greater than zero".to_owned());
        }
        if self.max_questions == 0 {
            return Err("--max-questions must be greater than zero".to_owned());
        }
        if self.max_concurrent == 0 {
            return Err("--max-concurrent must be greater than zero".to_owned());
        }
        if self.max_response_bytes == 0 {
            return Err("--max-response-bytes must be greater than zero".to_owned());
        }
        if let Some(fault) = check_variables(&self.python_env) {
            return Err(fault);
        }
        if self.python.as_str().is_empty() {
            return Err("--python must not be empty".to_owned());
        }
        Ok(())
    }

    /// Subfolder passed to `laya.load`, the same for local and remote models.
    pub fn subfolder(&self) -> (res: Option<String>)
        ensures
            match res {
                Some(folder) => self@.checkpoint.folder() == Some(folder@),
                None => self@.checkpoint.folder() is None,
            },
    {
        match self.checkpoint.subfolder() {
            Some(folder) => Some(folder.to_owned()),
            None => None,
        }
    }

    /// Program and arguments for the resident worker child.
    pub fn worker_command(&self) -> (res: (String, Vec<String>))
        ensures
            res.0@ == self@.python,
            texts(res.1@) == self@.worker_arguments(),
    {
        let mut args: Vec<String> = Vec::new();
        if !self.worker_script.as_str().is_empty() {
            args.push(self.worker_script.clone());
        }
        args.push("--model".to_owned());
        args.push(self.model.clone());
        args.push("--device".to_owned());
        args.push(self.device.as_str().to_owned());
        if let Some(folder) = self.subfolder() {
            args.push("--subfolder".to_owned());
            args.push(folder);
        }
        let mut extra = clone_texts(&self.worker_args);
        let ghost front = args@;
        let ghost back = extra@;
        args.append(&mut extra);
        assert(texts(front + back) =~= texts(front) + texts(back));
        assert(texts(args@) =~= self@.worker_arguments());
        (self.python.clone(), args)
    }

    /// The configuration that the command line asks for; `bind` is the address in it as it was
    /// read, or why it cannot be read.
    pub fn try_from(cli: Cli, bind: Result<BindAddress, String>) -> (res: Result<Config, String>)
        ensures
            match res {
                Ok(config) => configured(cli@, bind_view(bind)) == Ok::<ConfigView, Seq<char>>(
                    config@,
                ),
                Err(fault) => configured(cli@, bind_view(bind)) == Err::<ConfigView, Seq<char>>(
                    fault@,
                ),
            },
    {
        let bind = match bind {
            Ok(bind) => bind,
            Err(fault) => {
                let start = join3("invalid --bind ", quoted(cli.bind.as_str()).as_str(), ": ");
                return Err(join2(start.as_str(), fault.as_str()));
            },
        };
        let python_env = match read_variables(&cli.python_env) {
            Ok(pairs) => pairs,
            Err(fault) => return Err(fault),
        };
        let config = Config {
            bind,
            python: cli.python,
            worker_script: cli.worker_script,
            worker_args: cli.worker_args,
            model: cli.model,
            checkpoint: cli.checkpoint,
            device: cli.device,
            python_env,
            max_body_bytes: cli.max_body_bytes,
            max_questions: cli.max_questions,
            max_concurrent: cli.max_concurrent,
            max_response_bytes: cli.max_response_bytes,
            startup_timeout: Duration::from_millis(cli.startup_timeout_ms),
            inference_timeout: Duration::from_millis(cli.inference_timeout_ms),
            shutdown_timeout: Duration::from_millis(cli.shutdown_timeout_ms),
            fail_fast: !cli.no_fail_fast,
            log: cli.log,
        };
        match config.validate() {
            Ok(_) => Ok(config),
            Err(fault) => Err(fault),
        }
    }
}

proof fn lemma_variables_named(pairs: Seq<(Seq<char>, Seq<char>)>, i: int)
    requires
        variables_fault(pairs) is None,
        0 <= i < pairs.len(),
    ensures
        pairs[i].0.len() > 0,
        !pairs[i].0.contains('='),
    decreases i,
{
    if i > 0 {
        lemma_variables_named(pairs.skip(1), i - 1);
        assert(pairs.skip(1)[i - 1] == pairs[i]);
    }
}

/// Every configuration that is accepted serves loopback only, allows at least one of
/// everything, names a program, and sets variables with proper names only.
pub proof fn lemma_accepted_config_is_safe(
    cli: CliView,
    bind: Result<BindView, Seq<char>>,
    config: ConfigView,
)
    requires
        configured(cli, bind) == Ok::<ConfigView, Seq<char>>(config),
    ensures
        bind == Ok::<BindView, Seq<char>>(config.bind),
        config.bind.ip.is_local(),
        config.max_body_bytes > 0,
        config.max_questions > 0,
        config.max_concurrent > 0,
        config.max_response_bytes > 0,
        config.python.len() > 0,
        forall|i: int|
            0 <= i < config.python_env.len() ==> (#[trigger] config.python_env[i]).0.len() > 0
                && !config.python_env[i].0.contains('='),
{
    assert forall|i: int| 0 <= i < config.python_env.len() implies (
    #[trigger] config.python_env[i]).0.len() > 0 && !config.python_env[i].0.contains('=') by {
        lemma_variables_named(config.python_env, i);
    }
}

/// The worker is told the checkpoint's subfolder exactly when the checkpoint has one, right
/// behind the flag for it, so no checkpoint runs as the English one.
pub proof fn lemma_checkpoint_reaches_the_worker(config: ConfigView)
    ensures
        config.checkpoint is English <==> config.checkpoint.folder() is None,
        config.checkpoint.folder() matches Some(folder) ==> {
            let at = if config.worker_script.len() == 0 {
                4int
            } else {
                5int
            };
            &&& at + 1 < config.worker_arguments().len()
            &&& config.worker_arguments()[at] == "--subfolder"@
            &&& config.worker_arguments()[at + 1] == folder
            &&& folder == config.checkpoint.name()
        },
{
}

/// The names of the checkpoints and devices are those that operators and the worker use.
pub proof fn lemma_names_in_use()
    ensures
        Checkpoint::English.name() == "english"@,
        Checkpoint::Multilingual.name() == "multilingual"@,
        Checkpoint::TypedDecisions.name() == "typed-decisions"@,
        Device::Cpu.name() == "cpu"@,
        Device::Mps.name() == "mps"@,
        Device::Cuda.name() == "cuda"@,
        Device::Auto.name() == "auto"@,
{
}

/// Only addresses of the same machine are local: those of version 4 that begin with 127, and of
/// version 6 the one whose number is 1.
pub proof fn lemma_local_addresses(a: u8, b: u8, c: u8, d: u8, number: u128)
    ensures
        IpAddress::V4(a, b, c, d).is_local() <==> a == 127,
        IpAddress::V6(number).is_local() <==> number == 1,
{
}

/// The worker's command line begins with the script, where there is one, and goes on with the
/// configured model and device, each right behind its flag, then the subfolder of the checkpoint
/// behind its flag, where the checkpoint has one, and the extra arguments as they are.
pub proof fn lemma_worker_is_told_what_to_load(config: ConfigView)
    ensures
        ({
            let args = config.worker_arguments();
            let at = if config.worker_script.len() > 0 {
                1int
            } else {
                0int
            };
            let end = if config.checkpoint is English {
                at + 4
            } else {
                at + 6
            };
            &&& args.len() == end + config.worker_args.len()
            &&& config.worker_script.len() > 0 ==> args[0] == config.worker_script
            &&& args[at] == "--model"@
            &&& args[at + 1] == config.model
            &&& args[at + 2] == "--device"@
            &&& args[at + 3] == match config.device {
                Device::Cpu => "cpu"@,
                Device::Mps => "mps"@,
                Device::Cuda => "cuda"@,
                Device::Auto => "auto"@,
            }
            &&& !(config.checkpoint is English) ==> {
                &&& args[at + 4] == "--subfolder"@
                &&& args[at + 5] == if config.checkpoint is Multilingual {
                    "multilingual"@
                } else {
                    "typed-decisions"@
                }
            }
            &&& forall|i: int|
                0 <= i < config.worker_args.len() ==> args[end + i]
                    == #[trigger] config.worker_args[i]
        }),
{
}

/// Configurations that differ in the model, the device or the checkpoint start the worker with
/// different command lines.
pub proof fn lemma_choices_reach_the_worker(a: ConfigView, b: ConfigView)
    requires
        a.worker_arguments() == b.worker_arguments(),
        a.worker_script == b.worker_script,
        a.worker_args == b.worker_args,
    ensures
        a.model == b.model,
        a.device == b.device,
        a.checkpoint == b.checkpoint,
{
    lemma_worker_is_told_what_to_load(a);
    lemma_worker_is_told_what_to_load(b);
    lemma_device_names_read_back(a.device, b.device);
    lemma_checkpoint_names_read_back(a.checkpoint, b.checkpoint);
    let at = if a.worker_script.len() > 0 {
        1int
    } else {
        0int
    };
    assert(a.worker_arguments()[at + 1] == b.worker_arguments()[at + 1]);
    assert(a.worker_arguments()[at + 3] == b.worker_arguments()[at + 3]);
    if !(a.checkpoint is English) && !(b.checkpoint is English) {
        assert(a.worker_arguments()[at + 5] == b.worker_arguments()[at + 5]);
    }
}

proof fn lemma_all_items_set(items: Seq<Seq<char>>)
    ensures
        items_fault(items) is None <==> forall|i: int|
            0 <= i < items.len() ==> (#[trigger] items[i]).contains('='),
    decreases items.len(),
{
    if items.len() > 0 {
        let rest = items.skip(1);
        lemma_all_items_set(rest);
        lemma_cut_splits(items[0], '=');
        if let Some((before, after)) = cut_text(items[0], '=') {
            assert(items[0][before.len() as int] == '=');
        }
        if items_fault(items) is None {
            assert forall|i: int| 0 <= i < items.len() implies (#[trigger] items[i]).contains(
                '=',
            ) by {
                if i > 0 {
                    assert(rest[i - 1] == items[i]);
                }
            }
        } else if cut_text(items[0], '=') is Some {
            let i = choose|i: int| 0 <= i < rest.len() && !(#[trigger] rest[i]).contains('=');
            assert(items[i + 1] == rest[i]);
        }
    }
}

proof fn lemma_all_variables_named(pairs: Seq<(Seq<char>, Seq<char>)>)
    ensures
        variables_fault(pairs) is None <==> forall|i: int|
            0 <= i < pairs.len() ==> (#[trigger] pairs[i]).0.len() > 0 && !pairs[i].0.contains('='),
    decreases pairs.len(),
{
    if pairs.len() > 0 {
        let rest = pairs.skip(1);
        lemma_all_variables_named(rest);
        if variables_fault(pairs) is None {
            assert forall|i: int| 0 <= i < pairs.len() implies (#[trigger] pairs[i]).0.len() > 0
                && !pairs[i].0.contains('=') by {
                lemma_variables_named(pairs, i);
            }
        } else if pairs[0].0.len() > 0 && !pairs[0].0.contains('=') {
            let i = choose|i: int|
                0 <= i < rest.len() && !((#[trigger] rest[i]).0.len() > 0 && !rest[i].0.contains(
                    '=',
                ));
            assert(pairs[i + 1] == rest[i]);
        }
    }
}

/// A `KEY=VALUE` item sets the variable that it names before its first `=`, white space around
/// the name aside, to all that follows.
pub proof fn lemma_items_set_what_they_say(name: Seq<char>, value: Seq<char>)
    requires
        !name.contains('='),
    ensures
        item_variable(name + seq!['='] + value) == (trimmed(name), value),
{
    let item = name + seq!['='] + value;
    lemma_cut_splits(item, '=');
    assert(item[name.len() as int] == '=');
    let (before, after) = cut_text(item, '=')->0;
    assert(item == before + seq!['='] + after);
    if before.len() < name.len() {
        assert(item[before.len() as int] == '=');
        assert(name[before.len() as int] == '=');
    }
    if before.len() > name.len() {
        assert(before[name.len() as int] == item[name.len() as int]);
    }
    assert(before =~= name) by {
        assert forall|i: int| 0 <= i < name.len() implies before[i] == name[i] by {
            assert(before[i] == item[i]);
        }
    }
    assert(after =~= value) by {
        assert forall|i: int| 0 <= i < value.len() implies after[i] == value[i] by {
            assert(item[name.len() + 1 + i] == value[i]);
            assert(item[before.len() + 1 + i] == after[i]);
        }
    }
}

/// A configuration that is accepted is the one that the command line asks for, in every value.
pub proof fn lemma_config_is_as_asked_for(
    cli: CliView,
    bind: BindView,
    config: ConfigView,
)
    requires
        configured(cli, Ok(bind)) == Ok::<ConfigView, Seq<char>>(config),
    ensures
        config.bind == bind,
        config.python == cli.python,
        config.worker_script == cli.worker_script,
        config.worker_args == cli.worker_args,
        config.model == cli.model,
        config.checkpoint == cli.checkpoint,
        config.device == cli.device,
        config.python_env.len() == cli.python_env.len(),
        forall|i: int, name: Seq<char>, value: Seq<char>|
            0 <= i < cli.python_env.len() && cli.python_env[i] == #[trigger] (name + seq!['=']
                + value) && !name.contains('=') ==> #[trigger] config.python_env[i] == (
                trimmed(name),
                value,
            ),
        config.max_body_bytes == cli.max_body_bytes,
        config.max_questions == cli.max_questions,
        config.max_concurrent == cli.max_concurrent,
        config.max_response_bytes == cli.max_response_bytes,
        config.startup_timeout.total_millis() == cli.startup_timeout_ms,
        config.inference_timeout.total_millis() == cli.inference_timeout_ms,
        config.shutdown_timeout.total_millis() == cli.shutdown_timeout_ms,
        config.fail_fast == !cli.no_fail_fast,
        config.log == cli.log,
{
    assert forall|i: int, name: Seq<char>, value: Seq<char>|
        0 <= i < cli.python_env.len() && cli.python_env[i] == #[trigger] (name + seq!['='] + value)
            && !name.contains('=') implies #[trigger] config.python_env[i] == (
        trimmed(name),
        value,
    ) by {
        lemma_items_set_what_they_say(name, value);
    }
}

/// A command line is accepted exactly when its address was read and is local, no limit is 0,
/// every variable is written as `KEY=VALUE` with a name that is not blank, and there is a program.
pub proof fn lemma_configs_that_are_accepted(cli: CliView, bind: Result<BindView, Seq<char>>)
    ensures
        configured(cli, bind) is Ok <==> {
            &&& bind is Ok
            &&& (bind->Ok_0).ip.is_local()
            &&& cli.max_body_bytes > 0
            &&& cli.max_questions > 0
            &&& cli.max_concurrent > 0
            &&& cli.max_response_bytes > 0
            &&& cli.python.len() > 0
            &&& forall|i: int|
                0 <= i < cli.python_env.len() ==> {
                    &&& (#[trigger] cli.python_env[i]).contains('=')
                    &&& !is_blank_text((cut_text(cli.python_env[i], '=')->0).0)
                }
        },
{
    lemma_all_items_set(cli.python_env);
    let pairs = item_variables(cli.python_env);
    lemma_all_variables_named(pairs);
    assert forall|i: int| 0 <= i < cli.python_env.len() && (#[trigger] cli.python_env[i]).contains(
        '=',
    ) implies (pairs[i].0.len() > 0 <==> !is_blank_text((cut_text(cli.python_env[i], '=')->0).0))
        && !pairs[i].0.contains('=') by {
        let item = cli.python_env[i];
        lemma_cut_splits(item, '=');
        let name = (cut_text(item, '=')->0).0;
        lemma_blank_is_trimmed_away(name);
        lemma_trimmed_is_inside(name);
        if trimmed(name).contains('=') {
            let at = choose|at: int| 0 <= at < trimmed(name).len() && trimmed(name)[at] == '=';
            assert(name.contains('='));
        }
    }
    if forall|i: int|
        0 <= i < cli.python_env.len() ==> {
            &&& (#[trigger] cli.python_env[i]).contains('=')
            &&& !is_blank_text((cut_text(cli.python_env[i], '=')->0).0)
        } {
        assert forall|i: int| 0 <= i < pairs.len() implies (#[trigger] pairs[i]).0.len() > 0
            && !pairs[i].0.contains('=') by {
            assert(cli.python_env[i].contains('='));
        }
    }
    if items_fault(cli.python_env) is None && variables_fault(pairs) is None {
        assert forall|i: int| 0 <= i < cli.python_env.len() implies {
            &&& (#[trigger] cli.python_env[i]).contains('=')
            &&& !is_blank_text((cut_text(cli.python_env[i], '=')->0).0)
        } by {
            assert(pairs[i].0.len() > 0);
        }
    }
}

/// The values of an empty command line are those that the documentation promises: a megabyte of
/// body and eight of reply, ten minutes to start, one to answer and ten seconds to stop.
pub proof fn lemma_promised_defaults()
    ensures
        DEFAULT_MODEL@ == "convaiinnovations/laya"@,
        LOCAL_MODEL_ROOT@ == ".layad/model"@,
        LOCAL_PYTHON@ == ".venv/bin/python"@,
        SYSTEM_PYTHON@ == "python3"@,
        DEFAULT_BIND@ == "127.0.0.1:8787"@,
        DEFAULT_WORKER_SCRIPT@ == "python/worker.py"@,
        DEFAULT_LOG@ == "info"@,
        DEFAULT_MAX_BODY_BYTES == 1024 * 1024,
        DEFAULT_MAX_QUESTIONS == 64,
        DEFAULT_MAX_CONCURRENT == 24,
        DEFAULT_MAX_RESPONSE_BYTES == 8 * 1024 * 1024,
        DEFAULT_STARTUP_TIMEOUT_MS == 600 * 1000,
        DEFAULT_INFERENCE_TIMEOUT_MS == 60 * 1000,
        DEFAULT_SHUTDOWN_TIMEOUT_MS == 10 * 1000,
{
}

/// A configuration is in order exactly when it binds a local address, allows at least one of
/// everything, sets variables with proper names only, and names a program. What is wrong with one
/// is told under the flag that it came with.
pub proof fn lemma_configs_in_order(config: ConfigView)
    ensures
        config.fault() is None <==> {
            &&& config.bind.ip.is_local()
            &&& config.max_body_bytes > 0
            &&& config.max_questions > 0
            &&& config.max_concurrent > 0
            &&& config.max_response_bytes > 0
            &&& config.python.len() > 0
            &&& forall|i: int|
                0 <= i < config.python_env.len() ==> (#[trigger] config.python_env[i]).0.len() > 0
                    && !config.python_env[i].0.contains('=')
        },
        !config.bind.ip.is_local() ==> config.fault() == Some(
            "refusing to bind "@ + config.bind.text
                + ": layad is an unauthenticated local service and only serves loopback addresses"@,
        ),
        config.bind.ip.is_local() ==> {
            &&& config.max_body_bytes == 0 ==> config.fault() == Some(
                "--max-body-bytes must be greater than zero"@,
            )
            &&& config.max_body_bytes > 0 && config.max_questions == 0 ==> config.fault() == Some(
                "--max-questions must be greater than zero"@,
            )
            &&& config.max_body_bytes > 0 && config.max_questions > 0 && config.max_concurrent == 0
                ==> config.fault() == Some("--max-concurrent must be greater than zero"@)
            &&& config.max_body_bytes > 0 && config.max_questions > 0 && config.max_concurrent > 0
                && config.max_response_bytes == 0 ==> config.fault() == Some(
                "--max-response-bytes must be greater than zero"@,
            )
            &&& config.max_body_bytes > 0 && config.max_questions > 0 && config.max_concurrent > 0
                && config.max_response_bytes > 0 && config.python_env.len() == 0
                && config.python.len() == 0 ==> config.fault() == Some(
                "--python must not be empty"@,
            )
        },
{
    lemma_all_variables_named(config.python_env);
}

/// An address that was not read is refused with the flag that it came with and the reason, and so
/// is the first variable that is not written as `KEY=VALUE`.
pub proof fn lemma_refused_values_are_named(
    cli: CliView,
    bind: BindView,
    fault: Seq<char>,
    at: int,
)
    ensures
        configured(cli, Err(fault)) == Err::<ConfigView, Seq<char>>(
            "invalid --bind "@ + quoted_text(cli.bind) + ": "@ + fault,
        ),
        0 <= at < cli.python_env.len() && !cli.python_env[at].contains('=') && (forall|i: int|
            0 <= i < at ==> (#[trigger] cli.python_env[i]).contains('=')) ==> configured(
            cli,
            Ok(bind),
        ) == Err::<ConfigView, Seq<char>>(
            "--python-env expects KEY=VALUE, got "@ + quoted_text(cli.python_env[at]),
        ),
{
    if 0 <= at < cli.python_env.len() && !cli.python_env[at].contains('=') && (forall|i: int|
        0 <= i < at ==> (#[trigger] cli.python_env[i]).contains('=')) {
        lemma_first_bad_item(cli.python_env, at);
    }
}

proof fn lemma_first_bad_item(items: Seq<Seq<char>>, at: int)
    requires
        0 <= at < items.len(),
        !items[at].contains('='),
        forall|i: int| 0 <= i < at ==> (#[trigger] items[i]).contains('='),
    ensures
        items_fault(items) == Some(
            "--python-env expects KEY=VALUE, got "@ + quoted_text(items[at]),
        ),
    decreases at,
{
    lemma_cut_splits(items[0], '=');
    if at == 0 {
        if let Some((before, after)) = cut_text(items[0], '=') {
            assert(items[0][before.len() as int] == '=');
        }
    } else {
        assert(items[0].contains('='));
        let rest = items.skip(1);
        assert forall|i: int| 0 <= i < at - 1 implies (#[trigger] rest[i]).contains('=') by {
            assert(rest[i] == items[i + 1]);
        }
        lemma_first_bad_item(rest, at - 1);
    }
}

} // verus!
