//! The image-generation job: the fixed parameters the bot submits to the
//! job queue, and the reading of the queue's answer.

use vstd::prelude::*;
use vstd::string::StringExecFns;

use crate::text::{trim_quotes, trim_quotes_spec};

verus! {

/// The decimal digits of a number, most significant first.
pub open spec fn dec_digits(n: nat) -> Seq<char>
    decreases n,
{
    if n < 10 {
        seq![digit_char(n)]
    } else {
        dec_digits(n / 10).push(digit_char(n % 10))
    }
}

/// The character for a single decimal digit.
pub open spec fn digit_char(d: nat) -> char {
    if d == 0 {
        '0'
    } else if d == 1 {
        '1'
    } else if d == 2 {
        '2'
    } else if d == 3 {
        '3'
    } else if d == 4 {
        '4'
    } else if d == 5 {
        '5'
    } else if d == 6 {
        '6'
    } else if d == 7 {
        '7'
    } else if d == 8 {
        '8'
    } else {
        '9'
    }
}

fn digit_str(d: u64) -> (s: &'static str)
    requires
        d < 10,
    ensures
        s@ == seq![digit_char(d as nat)],
{
    let s: &'static str = if d == 0 {
        "0"
    } else if d == 1 {
        "1"
    } else if d == 2 {
        "2"
    } else if d == 3 {
        "3"
    } else if d == 4 {
        "4"
    } else if d == 5 {
        "5"
    } else if d == 6 {
        "6"
    } else if d == 7 {
        "7"
    } else if d == 8 {
        "8"
    } else {
        "9"
    };
    proof {
        reveal_strlit("0");
        reveal_strlit("1");
        reveal_strlit("2");
        reveal_strlit("3");
        reveal_strlit("4");
        reveal_strlit("5");
        reveal_strlit("6");
        reveal_strlit("7");
        reveal_strlit("8");
        reveal_strlit("9");
        assert(s@ =~= seq![digit_char(d as nat)]);
    }
    s
}

/// Render a number in decimal.
pub fn u64_to_dec(n: u64) -> (s: String)
    ensures
        s@ == dec_digits(n as nat),
    decreases n,
{
    let d = n % 10;
    let ds = digit_str(d);
    if n < 10 {
        ds.to_owned()
    } else {
        let rest = u64_to_dec(n / 10);
        let s = rest.concat(ds);
        proof {
            assert(s@ =~= dec_digits((n / 10) as nat).push(digit_char((n % 10) as nat)));
        }
        s
    }
}

/// The parameters of one submission to the image job queue.  Everything but
/// the prompt, the deadline and the job id is fixed; the guidance scale is
/// held in tenths, since it is handed over as the fraction seventy-five
/// tenths.
pub struct ImageJobRequest {
    pub width: u64,
    pub height: u64,
    pub prompt: String,
    pub neg_prompt: String,
    pub num_iterations: u64,
    pub guidance_scale_tenths: u64,
    pub model_id: String,
    pub deadline: u64,
    pub priority: u64,
    pub job_id: String,
}

impl ImageJobRequest {
    /// Assemble a job around the configured base prompt: a square picture,
    /// a deadline five minutes from now, and a job id derived from the
    /// current time in milliseconds.
    pub fn new(base_prompt: &str, now_secs: u64, now_millis: u64) -> (job: ImageJobRequest)
        requires
            now_secs + 300 <= u64::MAX,
        ensures
            job.width == 1024,
            job.height == 1024,
            job.prompt@ == base_prompt@,
            job.neg_prompt@ == spec_negative_prompt(),
            job.num_iterations == 22,
            job.guidance_scale_tenths == 75,
            job.model_id@ == spec_image_model(),
            job.deadline == now_secs + 300,
            job.priority == 1,
            job.job_id@ == spec_job_id(now_millis as nat),
    {
        let mut job_id = String::from_str("job_");
        let millis = u64_to_dec(now_millis);
        job_id.append(millis.as_str());
        ImageJobRequest {
            width: 1024,
            height: 1024,
            prompt: base_prompt.to_owned(),
            neg_prompt: String::from_str(
                "worst quality, bad quality, umbrella, blurry face, anime, illustration",
            ),
            num_iterations: 22,
            guidance_scale_tenths: 75,
            model_id: String::from_str("BluePencilRealistic"),
            deadline: now_secs + 300,
            priority: 1,
            job_id,
        }
    }
}

pub open spec fn spec_negative_prompt() -> Seq<char> {
    "worst quality, bad quality, umbrella, blurry face, anime, illustration"@
}

pub open spec fn spec_image_model() -> Seq<char> {
    "BluePencilRealistic"@
}

/// A job id names the moment of submission.
pub open spec fn spec_job_id(now_millis: nat) -> Seq<char> {
    "job_"@ + dec_digits(now_millis)
}

/// Read the job queue's answer: the body with its surrounding quotes
/// stripped is the image's address.
pub fn parse_image_url(body: &str) -> (url: String)
    ensures
        url@ == trim_quotes_spec(body@),
{
    trim_quotes(body)
}

} // verus!
