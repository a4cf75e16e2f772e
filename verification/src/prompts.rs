//! Prompt templates for the narrative generator.
//!
//! The narrative generator itself talks to a local LLM and lives with
//! the delivery plumbing outside this library; what is kept here is the
//! data it consumes: the free-text fields a user attaches to a summary,
//! and the prompt template selected by tone.

use vstd::prelude::*;

verus! {

/// Free-text fields a user attaches to a summary.
#[derive(Debug, Clone)]
pub struct SummaryInput {
    pub blockers: Option<String>,
    pub tomorrow_priorities: Option<String>,
    pub manual_notes: Option<String>,
    pub narrative: Option<String>,
    pub tone: Option<String>,
}

/// The prompt template for the professional tone.
pub const PROFESSIONAL_TEMPLATE: &'static str = r#"Generate a professional work summary in 4-6 sentences. Use third person perspective. Be factual and concise.

Input data:
- Tickets closed: {{tickets_closed_count}} ({{tickets_closed_list}})
- Tickets in progress: {{tickets_in_progress_count}} ({{tickets_in_progress_list}})
- Meetings attended: {{meetings_count}} ({{meetings_list}})
- Focus time: {{focus_hours}} hours
- Current blockers: {{blockers}}
- Tomorrow's priorities: {{tomorrow_priorities}}

Structure your summary as follows:
1. Accomplishments (tickets closed)
2. Current work (in-progress tickets)
3. Meetings/collaboration
4. Focus time
5. Blockers (if any)
6. Tomorrow's plan

Use formal, professional language. Do not use emojis. Be specific about ticket IDs and accomplishments."#;

/// The prompt template for the casual tone.
pub const CASUAL_TEMPLATE: &'static str = r#"Write a casual, first-person summary of my workday in 4-6 sentences. Be conversational and highlight wins.

Today's work:
- Closed {{tickets_closed_count}} tickets: {{tickets_closed_list}}
- Still working on {{tickets_in_progress_count}} tickets: {{tickets_in_progress_list}}
- Attended {{meetings_count}} meetings: {{meetings_list}}
- Got {{focus_hours}} hours of focus time
- Blockers: {{blockers}}
- Tomorrow I'm planning: {{tomorrow_priorities}}

Write this like I'm telling a colleague what I did today. Use "I" and "my". Be upbeat about accomplishments. Keep it natural and conversational. Mention specific ticket IDs where relevant."#;

/// The prompt template for the detailed tone.
pub const DETAILED_TEMPLATE: &'static str = r#"Write a comprehensive work summary in 6-8 sentences with specific details and time breakdowns.

Detailed input:
- Tickets completed ({{tickets_closed_count}}): {{tickets_closed_list}}
- Ongoing work ({{tickets_in_progress_count}}): {{tickets_in_progress_list}}
- Meetings ({{meetings_count}} total): {{meetings_list}}
- Focused work time: {{focus_hours}} hours
- Current blockers: {{blockers}}
- Planned for tomorrow: {{tomorrow_priorities}}

Provide a thorough summary that includes:
1. Specific ticket IDs and what was accomplished in each
2. Meeting topics and their durations
3. Time allocation breakdown
4. Detailed description of in-progress work
5. Specific blockers with context
6. Clear priorities for tomorrow

Use professional language. Include numbers, metrics, and specifics. This summary should give a complete picture of the day's work."#;

/// The template that a tone selects: the casual and detailed tones have
/// templates of their own; every other tone falls back to professional.
pub open spec fn template_spec(tone: Seq<char>) -> Seq<char> {
    if tone == "casual"@ {
        CASUAL_TEMPLATE@
    } else if tone == "detailed"@ {
        DETAILED_TEMPLATE@
    } else {
        PROFESSIONAL_TEMPLATE@
    }
}

/// Get the prompt template for a tone.
pub fn get_template(tone: &str) -> (r: String)
    ensures
        r@ == template_spec(tone@),
{
    let t = tone.to_owned();
    if t == String::from_str("casual") {
        String::from_str(CASUAL_TEMPLATE)
    } else if t == String::from_str("detailed") {
        String::from_str(DETAILED_TEMPLATE)
    } else {
        String::from_str(PROFESSIONAL_TEMPLATE)
    }
}

} // verus!
