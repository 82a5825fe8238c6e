use vstd::prelude::*;

verus! {

/// The targets monitored by default, as (display name, host) pairs.
pub fn get_default_servers() -> (r: Vec<(&'static str, &'static str)>)
    ensures
        r@.len() == 5,
        r@[0].0@ == "Google DNS"@ && r@[0].1@ == "8.8.8.8"@,
        r@[1].0@ == "Cloudflare DNS"@ && r@[1].1@ == "1.1.1.1"@,
        r@[2].0@ == "Google"@ && r@[2].1@ == "google.com"@,
        r@[3].0@ == "GitHub"@ && r@[3].1@ == "github.com"@,
        r@[4].0@ == "Stack Overflow"@ && r@[4].1@ == "stackoverflow.com"@,
{
    vec![
        ("Google DNS", "8.8.8.8"),
        ("Cloudflare DNS", "1.1.1.1"),
        ("Google", "google.com"),
        ("GitHub", "github.com"),
        ("Stack Overflow", "stackoverflow.com"),
    ]
}

} // verus!
