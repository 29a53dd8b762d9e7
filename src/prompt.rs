use vstd::prelude::*;
use vstd::string::*;

verus! {

/// The standing instructions that open every prompt.
pub const INSTRUCTIONS: &'static str = "You are an AI assistant helping answer questions about /dev/color. Use the following context to answer questions.  If you are highly confident in your answer based on the context provided, please cite the text from the context which provides the basis of your answer. ";

/// Heading placed between the instructions and the knowledge-base text.
pub const CONTEXT_HEADING: &'static str = "\n\nContext:\n";

/// Heading placed between the knowledge-base text and the question.
pub const QUESTION_HEADING: &'static str = "\n\nQuestion: ";

/// Closing request that ends every prompt.
pub const CLOSING: &'static str = "\n\nProvide a succinct answer in plain language";

/// The fixed knowledge base: ten questions and answers about the organisation.
pub const CONTEXT: &'static str = r#"1. **What is the mission of /dev/color?**  
   /dev/color is dedicated to supporting and empowering Black technologists by fostering a strong community, providing career development resources, and advocating for diversity in the tech industry. The organization aims to help Black software engineers, founders, and leaders navigate challenges and advance their careers. Through mentorship, programs, and industry collaborations, /dev/color strives to create lasting change in the tech sector.

2. **What key achievements did /dev/color members accomplish in 2023?**  
   In 2023, /dev/color members celebrated numerous personal and professional milestones, including promotions, new job opportunities, and high-profile appearances. Many members reported feeling a stronger sense of community, professional support, and increased access to opportunities. The organization played a crucial role in fostering these successes through networking, mentorship, and career development initiatives.

3. **What is the A* Program, and how does it support Black technologists?**  
   The A* Program is /dev/color’s flagship initiative, designed to help Black software engineers and managers set and achieve ambitious career goals through peer support and mentorship. Participants engage in small, year-round squads where they collaborate on career development and problem-solving. The program fosters professional growth by offering networking, skill-building, and leadership development opportunities.

4. **What impact has the Executive Accelerator Program had on Black leaders in tech?**  
   Launched in 2023, the Executive Accelerator Program supports rising Black executives by providing mentorship, coaching, and executive training. Participants engaged in a mix of virtual and in-person sessions, gaining skills in leadership, networking, and board service preparation. As a result, 100% of participants reported making progress toward their career goals, with many feeling more confident and empowered in their leadership roles.

5. **What types of events and networking opportunities does /dev/color provide?**  
   /dev/color hosted six in-person events across major cities, including San Francisco, New York, Atlanta, and Seattle, with support from corporate partners like LinkedIn and Intuit. These events provided opportunities for Black technologists to connect, learn, and grow in a supportive environment. The organization also facilitated networking through online communities, peer mentorship, and industry collaborations.

6. **How does /dev/color collaborate with other organizations and tech companies?**  
   In 2023, /dev/color partnered with organizations like Black Product Managers Network, ColorStack, and Goodie Nation to expand its reach and impact. The organization also collaborated with corporate partners such as Pinterest, Grammarly, and Concrete Rose Capital to host panels, networking events, and professional development sessions. These partnerships helped bridge the gap between Black technologists and industry opportunities.

7. **What are the main sources of funding for /dev/color?**  
   /dev/color's primary funding comes from corporate partners, which contributed approximately $1.74 million in 2023. Additional revenue streams include individual contributions ($139,057) and program-related income ($93,345). These funds support the organization’s operations, programs, and community initiatives.

8. **What are some key statistics on member engagement and impact?**  
   In 2023, /dev/color had 760 active members across 386 companies and 39 A* squads. Surveys showed that 84% of members felt a deeper sense of community, 81% received direct support in their roles, and 68% increased their compensation. These figures highlight the tangible benefits of participation in /dev/color’s programs.

9. **Which corporate partners supported /dev/color in 2023?**  
   Some of /dev/color’s key corporate partners in 2023 included Atlassian, the Chan Zuckerberg Initiative, Etsy, GitLab, Grammarly, Intuit, LinkedIn, Pinterest, and the San Francisco Federal Reserve Bank. These organizations provided financial support, event sponsorships, and networking opportunities for members. Their contributions were essential in driving /dev/color’s mission forward.

10. **How can individuals or companies contribute to /dev/color’s mission?**  
   Individuals can support /dev/color by making financial contributions, participating in mentorship programs, and advocating for diversity in tech. Companies can collaborate by sponsoring events, providing funding, or offering professional development opportunities for Black technologists. These contributions help sustain the organization’s efforts to create a more inclusive and equitable tech industry."#;

/// The full prompt sent for a question: instructions, the knowledge base, the
/// question as typed, and the closing request.
pub open spec fn prompt_text(question: Seq<char>) -> Seq<char> {
    INSTRUCTIONS@ + CONTEXT_HEADING@ + CONTEXT@ + QUESTION_HEADING@ + question + CLOSING@
}

/// Builds the prompt for `question`, which is taken verbatim (no trimming).
pub fn build_prompt(question: &str) -> (r: String)
    ensures
        r@ == prompt_text(question@),
{
    let mut p = String::from_str(INSTRUCTIONS);
    p.append(CONTEXT_HEADING);
    p.append(CONTEXT);
    p.append(QUESTION_HEADING);
    p.append(question);
    p.append(CLOSING);
    p
}

/// The prompt holds, verbatim and in this order, the instructions, the whole
/// knowledge base and the exact question; it ends with the question heading,
/// the question and the closing request.
pub proof fn prompt_parts_in_order(question: Seq<char>)
    ensures
        ({
            let p = prompt_text(question);
            let c0 = INSTRUCTIONS@.len() + CONTEXT_HEADING@.len();
            let c1 = c0 + CONTEXT@.len();
            let q0 = c1 + QUESTION_HEADING@.len();
            let q1 = q0 + question.len();
            &&& q1 + CLOSING@.len() == p.len()
            &&& p.subrange(0, INSTRUCTIONS@.len() as int) == INSTRUCTIONS@
            &&& p.subrange(c0 as int, c1 as int) == CONTEXT@
            &&& p.subrange(q0 as int, q1 as int) == question
            &&& p.subrange(c1 as int, p.len() as int) == QUESTION_HEADING@ + question + CLOSING@
        }),
{
    let p = prompt_text(question);
    let i = INSTRUCTIONS@;
    let h = CONTEXT_HEADING@;
    let c = CONTEXT@;
    let qh = QUESTION_HEADING@;
    let cl = CLOSING@;
    let c0 = i.len() + h.len();
    let c1 = c0 + c.len();
    let q0 = c1 + qh.len();
    let q1 = q0 + question.len();
    assert(p.subrange(0, i.len() as int) =~= i);
    assert(p.subrange(c0 as int, c1 as int) =~= c);
    assert(p.subrange(q0 as int, q1 as int) =~= question);
    assert(p.subrange(c1 as int, p.len() as int) =~= qh + question + cl);
}

} // verus!
