use vstd::prelude::*;

verus! {

/// Which concurrency model runs the ping-pong exchange.
#[derive(PartialEq, Eq, Structural, Clone, Copy, Debug)]
pub enum Benchmark {
    /// Two OS threads with blocking bounded channels.
    Sync,
    /// Two runtime tasks with suspending bounded channels.
    Async,
}

/// Why the command line selects no benchmark.
#[derive(PartialEq, Eq, Structural, Clone, Copy, Debug)]
pub enum UsageError {
    /// Not exactly one argument after the program name.
    WrongArgumentCount,
    /// The one argument is neither `sync` nor `async`.
    UnknownBenchmark,
}

/// The selection made by a command line, `args[0]` being the program name.
pub open spec fn selection(args: Seq<Seq<char>>) -> Result<Benchmark, UsageError> {
    if args.len() != 2 {
        Err(UsageError::WrongArgumentCount)
    } else if args[1] == "sync"@ {
        Ok(Benchmark::Sync)
    } else if args[1] == "async"@ {
        Ok(Benchmark::Async)
    } else {
        Err(UsageError::UnknownBenchmark)
    }
}

/// The views of the command-line words.
pub open spec fn words(args: Seq<String>) -> Seq<Seq<char>> {
    args.map_values(|a: String| a@)
}

/// Picks the benchmark that the command line names. The name is matched
/// exactly, case included.
pub fn select_benchmark(args: &Vec<String>) -> (r: Result<Benchmark, UsageError>)
    ensures
        r == selection(words(args@)),
{
    if args.len() != 2 {
        return Err(UsageError::WrongArgumentCount);
    }
    let sync_name = "sync".to_owned();
    let async_name = "async".to_owned();
    if args[1] == sync_name {
        Ok(Benchmark::Sync)
    } else if args[1] == async_name {
        Ok(Benchmark::Async)
    } else {
        Err(UsageError::UnknownBenchmark)
    }
}

impl UsageError {
    pub open spec fn spec_message(self) -> Seq<char> {
        match self {
            UsageError::WrongArgumentCount => "Usage: taskset 1 cargo run --release -- <async|sync>"@,
            UsageError::UnknownBenchmark => "Invalid benchmark type. Use 'sync' or 'async'."@,
        }
    }

    /// The hint printed for this error.
    pub fn message(&self) -> (r: String)
        ensures
            r@ == self.spec_message(),
    {
        match self {
            UsageError::WrongArgumentCount => "Usage: taskset 1 cargo run --release -- <async|sync>".to_owned(),
            UsageError::UnknownBenchmark => "Invalid benchmark type. Use 'sync' or 'async'.".to_owned(),
        }
    }
}

impl Benchmark {
    pub open spec fn spec_label(self) -> Seq<char> {
        match self {
            Benchmark::Sync => "Thread 2"@,
            Benchmark::Async => "Task 2"@,
        }
    }

    /// The name of the reporting participant in this benchmark's result line.
    pub fn label(&self) -> (r: String)
        ensures
            r@ == self.spec_label(),
    {
        match self {
            Benchmark::Sync => "Thread 2".to_owned(),
            Benchmark::Async => "Task 2".to_owned(),
        }
    }
}

} // verus!
