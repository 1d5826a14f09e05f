//! The benchmark's prompt suite and the messages it sends to the model server.
use vstd::prelude::*;
use crate::ollama::OllamaMessage;
use crate::text::{decimal, decimal_text};

verus! {

/// Where a benchmark's timing figures come from.
#[derive(Debug, Clone, Copy, PartialEq, Eq, Structural)]
pub enum TimingSource {
    /// The model server's own nanosecond figures (preferred).
    Native,
    /// The client's own measurements (fallback).
    Client,
}

impl TimingSource {
    /// The name of the source, as it stands in reports.
    pub fn as_str(&self) -> (r: &'static str)
        ensures
            r@ == match self {
                TimingSource::Native => "native"@,
                TimingSource::Client => "client"@,
            },
    {
        match self {
            TimingSource::Native => "native",
            TimingSource::Client => "client",
        }
    }
}

/// Categories of test prompts.
#[derive(Debug, Clone, Copy, PartialEq, Eq, Structural)]
pub enum PromptCategory {
    Short,
    Medium,
    Long,
    FollowUp,
}

/// The name of a category, as it stands in reports.
pub open spec fn category_name(c: PromptCategory) -> Seq<char> {
    match c {
        PromptCategory::Short => "short"@,
        PromptCategory::Medium => "medium"@,
        PromptCategory::Long => "long"@,
        PromptCategory::FollowUp => "follow-up"@,
    }
}

/// The prefix of the identifiers of a category's prompts.
pub open spec fn id_prefix(c: PromptCategory) -> Seq<char> {
    match c {
        PromptCategory::Short => "short"@,
        PromptCategory::Medium => "medium"@,
        PromptCategory::Long => "long"@,
        PromptCategory::FollowUp => "followup"@,
    }
}

impl PromptCategory {
    /// The name of the category, as it stands in reports.
    pub fn as_str(&self) -> (r: &'static str)
        ensures
            r@ == category_name(*self),
    {
        match self {
            PromptCategory::Short => "short",
            PromptCategory::Medium => "medium",
            PromptCategory::Long => "long",
            PromptCategory::FollowUp => "follow-up",
        }
    }
}

/// A single test prompt.
#[derive(Debug, Clone, PartialEq)]
pub struct TestPrompt {
    pub id: String,
    pub category: PromptCategory,
    pub prompt: String,
}

/// A progress report sent to the front end while the benchmark runs.
#[derive(Debug, Clone, PartialEq)]
pub struct BenchmarkProgress {
    pub current: usize,
    pub total: usize,
    pub current_test: String,
    pub iteration: usize,
}

/// The hardware that a benchmark ran on.
#[derive(Debug, Clone, PartialEq)]
pub struct HardwareSnapshot {
    pub cpu_model: String,
    pub gpu_name: String,
    pub avx2_supported: bool,
    pub npu_detected: bool,
    pub detection_failed: bool,
}

impl Default for HardwareSnapshot {
    /// The snapshot used when detection fails.
    fn default() -> (r: HardwareSnapshot)
        ensures
            r.cpu_model@ == "Unknown CPU"@,
            r.gpu_name@ == "Unknown GPU"@,
            !r.avx2_supported,
            !r.npu_detected,
            r.detection_failed,
    {
        HardwareSnapshot {
            cpu_model: String::from_str("Unknown CPU"),
            gpu_name: String::from_str("Unknown GPU"),
            avx2_supported: false,
            npu_detected: false,
            detection_failed: true,
        }
    }
}

/// Prompts in each category.
pub const PROMPTS_PER_CATEGORY: usize = 3;

/// Number of categories.
pub const CATEGORY_COUNT: usize = 4;

/// The category at position `k` of the suite's order.
pub open spec fn category_at(k: int) -> PromptCategory {
    if k == 0 {
        PromptCategory::Short
    } else if k == 1 {
        PromptCategory::Medium
    } else if k == 2 {
        PromptCategory::Long
    } else {
        PromptCategory::FollowUp
    }
}

/// The text of the `i`-th prompt of category `c`.
pub open spec fn prompt_text(c: PromptCategory, i: int) -> Seq<char> {
    match c {
        PromptCategory::Short => if i == 0 {
            "What is a variable in Python?"@
        } else if i == 1 {
            "How do I print in JavaScript?"@
        } else {
            "Explain a for loop briefly"@
        },
        PromptCategory::Medium => if i == 0 {
            "Write a bubble sort function in Python with comments"@
        } else if i == 1 {
            "Create a simple calculator program in JavaScript"@
        } else {
            "Explain classes and objects in Python with an example"@
        },
        PromptCategory::Long => if i == 0 {
            "Explain object-oriented programming concepts with detailed examples in Python"@
        } else if i == 1 {
            "Write a complete web scraper in Python with error handling and documentation"@
        } else {
            "Create a detailed guide for beginners on how to use Git and GitHub"@
        },
        PromptCategory::FollowUp => if i == 0 {
            "Can you explain that more simply?"@
        } else if i == 1 {
            "Can you add more comments to the code?"@
        } else {
            "What are some common mistakes beginners make with this?"@
        },
    }
}

fn category_of(k: usize) -> (r: PromptCategory)
    ensures
        r == category_at(k as int),
{
    if k == 0 {
        PromptCategory::Short
    } else if k == 1 {
        PromptCategory::Medium
    } else if k == 2 {
        PromptCategory::Long
    } else {
        PromptCategory::FollowUp
    }
}

fn id_prefix_str(c: PromptCategory) -> (r: &'static str)
    ensures
        r@ == id_prefix(c),
{
    match c {
        PromptCategory::Short => "short",
        PromptCategory::Medium => "medium",
        PromptCategory::Long => "long",
        PromptCategory::FollowUp => "followup",
    }
}

fn prompt_str(c: PromptCategory, i: usize) -> (r: &'static str)
    ensures
        r@ == prompt_text(c, i as int),
{
    match c {
        PromptCategory::Short => if i == 0 {
            "What is a variable in Python?"
        } else if i == 1 {
            "How do I print in JavaScript?"
        } else {
            "Explain a for loop briefly"
        },
        PromptCategory::Medium => if i == 0 {
            "Write a bubble sort function in Python with comments"
        } else if i == 1 {
            "Create a simple calculator program in JavaScript"
        } else {
            "Explain classes and objects in Python with an example"
        },
        PromptCategory::Long => if i == 0 {
            "Explain object-oriented programming concepts with detailed examples in Python"
        } else if i == 1 {
            "Write a complete web scraper in Python with error handling and documentation"
        } else {
            "Create a detailed guide for beginners on how to use Git and GitHub"
        },
        PromptCategory::FollowUp => if i == 0 {
            "Can you explain that more simply?"
        } else if i == 1 {
            "Can you add more comments to the code?"
        } else {
            "What are some common mistakes beginners make with this?"
        },
    }
}

/// The complete suite: three short, three medium, three long and three
/// follow-up prompts, in that order, with identifiers such as `short_1`.
pub fn get_test_suite() -> (r: Vec<TestPrompt>)
    ensures
        r@.len() == CATEGORY_COUNT * PROMPTS_PER_CATEGORY,
        forall|k: int|
            0 <= k < r@.len() ==> {
                let c = category_at(k / 3);
                &&& (#[trigger] r@[k]).category == c
                &&& r@[k].id@ == id_prefix(c) + "_"@ + decimal((k % 3 + 1) as nat)
                &&& r@[k].prompt@ == prompt_text(c, k % 3)
            },
{
    let mut suite: Vec<TestPrompt> = Vec::new();
    let mut c: usize = 0;
    while c < CATEGORY_COUNT
        invariant
            c <= CATEGORY_COUNT,
            suite@.len() == c * 3,
            forall|k: int|
                0 <= k < suite@.len() ==> {
                    let cat = category_at(k / 3);
                    &&& (#[trigger] suite@[k]).category == cat
                    &&& suite@[k].id@ == id_prefix(cat) + "_"@ + decimal((k % 3 + 1) as nat)
                    &&& suite@[k].prompt@ == prompt_text(cat, k % 3)
                },
        decreases CATEGORY_COUNT - c,
    {
        let category = category_of(c);
        let mut i: usize = 0;
        while i < PROMPTS_PER_CATEGORY
            invariant
                c < CATEGORY_COUNT,
                i <= PROMPTS_PER_CATEGORY,
                category == category_at(c as int),
                suite@.len() == c * 3 + i,
                forall|k: int|
                    0 <= k < suite@.len() ==> {
                        let cat = category_at(k / 3);
                        &&& (#[trigger] suite@[k]).category == cat
                        &&& suite@[k].id@ == id_prefix(cat) + "_"@ + decimal((k % 3 + 1) as nat)
                        &&& suite@[k].prompt@ == prompt_text(cat, k % 3)
                    },
            decreases PROMPTS_PER_CATEGORY - i,
        {
            let mut id = String::from_str(id_prefix_str(category));
            id.append("_");
            let n = decimal_text((i + 1) as u64);
            id.append(n.as_str());
            let ghost k = suite@.len() as int;
            assert(k / 3 == c as int && k % 3 == i as int);
            suite.push(
                TestPrompt { id, category, prompt: String::from_str(prompt_str(category, i)) },
            );
            i = i + 1;
        }
        c = c + 1;
    }
    suite
}

/// The number of tests in `iterations` runs of the suite.
pub fn get_total_test_count(iterations: usize) -> (r: usize)
    requires
        iterations * 12 <= usize::MAX,
    ensures
        r == iterations * (CATEGORY_COUNT * PROMPTS_PER_CATEGORY),
{
    iterations * 12
}

/// The system prompt of the coding assistant.
pub const SYSTEM_PROMPT: &'static str = "You are a helpful coding assistant designed for secondary school students (ages 11-18).\nYour goal is to explain programming concepts clearly and provide well-commented code examples.\n\nGuidelines:\n- Use simple, encouraging language\n- Break down complex concepts into steps\n- Always include helpful comments in code\n- Be patient and supportive\n- Adapt explanations to the student's level\n- Encourage learning and experimentation";

/// The messages of one benchmark request: the system prompt, then the
/// earlier conversation if there is one, then the prompt as the user's turn.
pub fn build_request_messages(prompt: &str, context: Option<Vec<OllamaMessage>>) -> (r: Vec<
    OllamaMessage,
>)
    ensures
        r@.len() == 2 + match context {
            Some(c) => c@.len(),
            None => 0,
        },
        r@[0].role@ == "system"@,
        r@[0].content@ == SYSTEM_PROMPT@,
        context matches Some(c) ==> r@.subrange(1, r@.len() - 1) == c@,
        r@.last().role@ == "user"@,
        r@.last().content@ == prompt@,
{
    let mut messages: Vec<OllamaMessage> = Vec::new();
    messages.push(
        OllamaMessage { role: String::from_str("system"), content: String::from_str(SYSTEM_PROMPT) },
    );
    match context {
        Some(ctx) => {
            let mut ctx = ctx;
            messages.append(&mut ctx);
        },
        None => {},
    }
    messages.push(OllamaMessage { role: String::from_str("user"), content: String::from_str(prompt) });
    messages
}

/// The conversation that a follow-up prompt continues: the first short
/// prompt, and the model's answer to it.
pub fn build_followup_context(previous_response: &str) -> (r: Vec<OllamaMessage>)
    ensures
        r@.len() == 2,
        r@[0].role@ == "user"@,
        r@[0].content@ == prompt_text(PromptCategory::Short, 0),
        r@[1].role@ == "assistant"@,
        r@[1].content@ == previous_response@,
{
    let mut messages: Vec<OllamaMessage> = Vec::new();
    messages.push(
        OllamaMessage {
            role: String::from_str("user"),
            content: String::from_str(prompt_str(PromptCategory::Short, 0)),
        },
    );
    messages.push(
        OllamaMessage {
            role: String::from_str("assistant"),
            content: String::from_str(previous_response),
        },
    );
    messages
}

} // verus!
