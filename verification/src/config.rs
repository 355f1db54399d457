//! Module settings: the models and prompts each tool uses, their defaults,
//! and the table of configured modules.

use vstd::prelude::*;

use crate::text::{str_eq, to_owned_string, push_str};

verus! {

/// Opening words of an older grading prompt that is replaced by the current
/// default wherever it is still stored.
pub const LEGACY_GRADER_PROMPT_PREFIX: &'static str = "You evaluate manuscripts in the domains";

/// The default grading instructions.
pub const PROTOTYPE_GRADER_PROMPT: &'static str = r#"You are tasked with grading manuscripts in the areas of urban soundscape, architectural acoustics, and healthy habitat. Six prestige levels of well-known journals are listed below for reference, but you do not need to consider manuscript fit to specific journals; these are to convey the relative prestige of each level. For each manuscript, provide your educated guess—expressed as a percentage—for the chance it would be sent out for external review at each of the six journal levels. In making your estimates, consider overall quality, scope breadth, methodological novelty, interest to readership, workload, quality of writing, methodological rigour, and whether the results fully support the claims. Some manuscripts you grade may already be published articles, but please evaluate them as if they are new, without regard to where they were actually published. Note each lower level should have a equal or higher chance than the previous level.
*Level 1 - High-impact broad journals*
Nature Sustainability; Nature Human Behaviour; The Innovation; Science Bulletin; National Science Review; One Earth; Nature Communications; Science Advances; Proceedings of the National Academy of Sciences
*Level 2 - Top large-field journals*
Sustainable Cities and Society; Environment International; npj Urban Sustainability; Computers, Environment and Urban Systems; Cities; Communications Earth & Environment; Landscape and Urban Planning; Building and Environment; Journal of Environmental Psychology
*Level 3 - Good small-field journals*
Building Simulation; Environment and Behaviour; People and Nature; Ecological Indicators; Journal of Environmental Management; Environmental Research; Urban Forestry and Urban Greening; Urban Climate; Applied Psychology: An International Review; Frontiers of Architectural Research; Journal of Forestry Research; Journal of Building Engineering; Developments in the Built Environment; Environmental Research Letters; Environmental Health; Health & Place; Humanities & Social Sciences Communications; Applied Acoustics;
*Level 4 - Mediocre field-specialised journals*
Sustainability Science; Indoor Air; Journal of Exposure Science and Environmental Epidemiology; Applied Psychology: Health and Well-Being; Building Research & Information; Environment and Planning B: Urban Analytics and City Science; Journal of Leisure Research; Journal of Outdoor Recreation and Tourism; Journal of the Acoustical Society of America; Indoor and Built Environment
*Level 5 - Low-level field-specialised journals*
Forests; Land; Buildings; Frontiers in Psychology; Behavioural Sciences; Journal of Asian Architecture and Building Engineering; Noise & Health; Acta Acustica
*Level 6 - Journals that explicitly say do not require novelty*
Scientific Reports; Plos ONE; Royal Society Open Science; BMC Psychology; Heliyon; Applied Sciences; Sage Open; Sustainability; PeerJ; Environmental Research Communications
## Output Format
Your output must be a JSON object with:
- Keys Level 1 through Level 6, each mapping to an integer percentage (0–100) indicating your estimate of the chance the manuscript is sent for external review at that level.
- A single key "justification" with a one-sentence rationale for your scoring.
Example output:
{
  "Level 1": 0,
  "Level 2": 10,
  "Level 3": 50,
  "Level 4": 80,
  "Level 5": 90,
  "Level 6": 100,
  "justification": "The methodology is solid, but the novelty and breadth do not meet the expectations for the highest-impact journals."
}"#;
pub const DEFAULT_SUMMARIZER_SUMMARY_MODEL: &'static str = "openrouter/openai/gpt-4o-mini";
pub const DEFAULT_SUMMARIZER_TRANSLATION_MODEL: &'static str = "openrouter/openai/gpt-4o-mini";
pub const DEFAULT_SUMMARIZER_RESEARCH_SUMMARY: &'static str = "You are an academic assistant. Write a detailed summary of the following research paper text. The summary should be approximately 800 words and cover these sections clearly:\n1. **Research Question/Objective:** State the main question or goal (~75 words).\n2. **Methodology:** Describe the methods, data collection, analysis techniques, tools, and participant/sample information (~400 words). Include specific details and quantitative information where available.\n3. **Findings/Results:** Present the key findings and results, including significant data points, statistical outcomes, or main observations (~400 words). Be specific and quantitative.\n4. **Discussion/Conclusion:** Briefly discuss the implications of the findings and the main conclusion (~75 words).\nStructure the output clearly. Do not use markdown formatting. Focus on factual reporting based only on the provided text.";
pub const DEFAULT_SUMMARIZER_GENERAL_SUMMARY: &'static str = "You are an assistant tasked with summarizing documents. Provide a concise yet comprehensive summary of the following text, aiming for approximately 600 words. Highlight the main points, key arguments, significant data or figures mentioned, and any conclusions drawn. Include specific quantitative details if they are present and relevant to the core message. Structure the summary logically. Do not use markdown formatting. Base the summary only on the provided text.";
pub const DEFAULT_SUMMARIZER_TRANSLATION: &'static str = "You are an expert translator for academic manuscripts from English (EN) to Chinese (CN). Maintain academic tone and style. Use the following EN -> CN glossary entries for consistent terminology (each line is EN -> CN):\n{{GLOSSARY}}\nPreserve citations, references, and technical terms.";
pub const DEFAULT_DOCX_TRANSLATION_MODEL: &'static str = "openrouter/openai/gpt-4o-mini";
pub const DEFAULT_DOCX_EN_TO_CN: &'static str = "You are an expert translator for academic manuscripts from English (EN) to Chinese (CN). Maintain formal academic tone and style in CN.\nUse the glossary consistently—each entry is EN -> CN:\n{{GLOSSARY}}\nThe user's input contains multiple paragraphs separated by the exact marker {{PARAGRAPH_SEPARATOR}}. Return the translated paragraphs with the same marker preserved between them.\nIf a paragraph is only a URL or citation, return it unchanged.";
pub const DEFAULT_DOCX_CN_TO_EN: &'static str = "You are an expert translator for academic manuscripts from Chinese (CN) to English (EN). Maintain formal academic tone and style in EN (British academic English preferred).\nUse the glossary consistently—each entry is CN -> EN:\n{{GLOSSARY}}\nThe user's input contains multiple paragraphs separated by the exact marker {{PARAGRAPH_SEPARATOR}}. Return the translated paragraphs with the same marker preserved between them.\nIf a paragraph is only a URL or citation, return it unchanged.";
pub const DEFAULT_GRADER_GRADING_MODEL: &'static str = "openrouter/openai/gpt-5.0-mini";
pub const DEFAULT_GRADER_KEYWORD_MODEL: &'static str = "openrouter/openai/gpt-5.0-mini";
pub const DEFAULT_GRADER_KEYWORD_SELECTION: &'static str = "You analyze an academic manuscript to identify its primary and secondary research focuses. Choose from the following keywords only:\n{{KEYWORDS}}\n\nOutput valid JSON with a single \"main_keyword\" (string) and up to three distinct items in \"peripheral_keywords\" (array). Peripheral keywords must differ from the main keyword. If none apply beyond the main topic, return an empty array for peripherals.";
pub const DEFAULT_REVIEWER_ROUND1_MODEL_1: &'static str = "openrouter/openai/gpt-4o";
pub const DEFAULT_REVIEWER_ROUND1_MODEL_2: &'static str = "openrouter/openai/gpt-4o-mini";
pub const DEFAULT_REVIEWER_ROUND1_MODEL_3: &'static str = "openrouter/google/gemini-pro-1.5";
pub const DEFAULT_REVIEWER_ROUND1_MODEL_4: &'static str = "openrouter/meta-llama/llama-3.1-70b-instruct";
pub const DEFAULT_REVIEWER_ROUND1_MODEL_5: &'static str = "openrouter/qwen/qwen-2.5-72b-instruct";
pub const DEFAULT_REVIEWER_ROUND1_MODEL_6: &'static str = "openrouter/mistralai/mistral-large-2";
pub const DEFAULT_REVIEWER_ROUND1_MODEL_7: &'static str = "openrouter/x-ai/grok-2";
pub const DEFAULT_REVIEWER_ROUND1_MODEL_8: &'static str = "openrouter/deepseek/deepseek-chat";
pub const DEFAULT_REVIEWER_ROUND2_MODEL: &'static str = "openrouter/openai/gpt-5.0";
pub const DEFAULT_REVIEWER_ROUND3_MODEL: &'static str = "openrouter/openai/gpt-5.0";
pub const DEFAULT_REVIEWER_INITIAL_PROMPT: &'static str = r#"You should act as a referee for manuscripts sent to you. You should provide at least eight major and five minor points of concern for each manuscript. When you first receive the manuscript, read it through once with a focus on the wider context of the research. Ask critical questions such as: What research question(s) do the authors address? Do they justify the question's importance? What methods do the authors use—are they current, or is there a better method available? Are there fundamental problems with their strategy? Would additional experiments greatly improve the manuscript, and are they necessary for publication? Would other data help confirm the results? Were the results analyzed and interpreted correctly? Does the evidence support the conclusion? Will the results advance the field, and does the advance match the journal's standards? Is the manuscript written for the correct audience? Is it appropriately targeted regarding international and cultural differences? Does the manuscript fit together logically, clearly describing what was done and why? If the language quality impedes understanding, request correction before proceeding further. After the first reading, summarize the manuscript with one medium-length sentence stating what the authors did and one medium-length sentence stating what they found. Then, provide one sentence outlining the major problem points to introduce the detailed points below; this brief summary is sufficient. You can then proceed with a direct evaluation of each section. Title, abstract and keywords: Assess if the title accurately summarizes the study. If not, suggest changes. Does the abstract present a clear, concise summary? Can it be understood by the broader scientific audience? Point out inclusion of irrelevant information or missing key facts. Are keywords appropriate and do they reflect the manuscript's content? Introduction: Judge whether the introduction provides sufficient, essential background and clearly defines the study's aims. Note if information is missing, extraneous, or if aims are ambiguous or inconsistent with the rest of the manuscript. Suggest additional references only if they are critical. Materials and Methods: Assess whether enough detail is present to allow replication. Identify potential biases, insufficient controls, or inadequate description of subjects and procedures. Insist on clarity and objectivity in outcome measures and statistical analysis. Do not hesitate to point out flaws in methodology or missing crucial information. Suggest further experiments only if truly necessary for publication. Results and Figures: Check that figures and tables are clear, contain measures of uncertainty, and are not redundant with the main text. Recommend removal or consolidation of figures and summarize non-essential results where appropriate. Indicate any suspicious image manipulation to the editor. Interpretation should be left to the Discussion section unless combined by the journal. Statistics: Ensure that tests are appropriate for the data and check justification for sample size and sources of bias. Point out failures in experimental replication, confounding, sampling, randomization and reporting of statistical significance (p-values and thresholds). Reviewing review articles: Judge the breadth, accuracy, and timeliness of literature cited and whether the discussion is balanced and structured logically. Discussion and Conclusion: Evaluate whether authors interpret the results in context and acknowledge the study's limitations. Note if the conclusions are unsupported, overstated, or lacking discussion of relevant alternative interpretations or previous literature. References: Note needed citations, outdated references, over-reliance on one group, or lack of balance in supporting versus contradicting literature. Writing a Report: Address both major and minor points in a straightforward, direct manner. Avoid unnecessary compliments and do not preface critiques with positive remarks unless they are significant. Keep feedback specific and actionable and cite page and line numbers where relevant. Use clear, concise, and unambiguous language, especially when indicating necessary changes. Ensure all feedback prioritizes clarity and directness rather than gentleness or excessive encouragement. As a guide, you should be aiming for journals roughly at the level of Building and Environment, Applied Acoustics, or Journal of Environmental Management when reviewing. Note, do not use markdown grammar or emojis in your report."#;
pub const DEFAULT_REVIEWER_INITIAL_PROMPT_ZH: &'static str = r#"你将扮演一位稿件审稿人，需要为收到的每一份稿件提供至少**八个主要问题**和**五个次要问题**，请以**中文核心期刊**的标准来要求审阅的稿件。。 ### **初次审阅** 当你收到稿件时，请先通读一遍，重点关注研究的宏观背景。你需要思考以下关键问题： * 作者旨在解决什么研究问题？他们是否充分论证了该问题的重要性？ * 作者使用了什么研究方法？这些方法是否先进，或有无更好的替代方法？ * 他们的研究策略是否存在根本性缺陷？ * 补充实验能否显著提升稿件质量？这些实验对于发表是否**必要**？ * 其他数据是否有助于验证研究结果？ * 结果的分析和解释是否正确？证据是否能支持结论？ * 研究结果能否推动该领域的发展？其学术贡献是否符合期刊的标准？ * 稿件的读者定位是否准确？是否恰当考虑了国际和文化背景的差异？ * 稿件的逻辑结构是否严密？是否清晰地描述了研究内容（做了什么）和研究动机（为什么做）？ * 如果语言质量严重影响理解，请在继续审阅前要求作者修改。 ### **撰写初步总结** 通读后，请用一个中等长度的句子总结**作者的研究内容**，再用一个中等长度的句子总结**他们的主要发现**。然后，用一句话**概括稿件存在的主要问题**，以引出下文的具体意见。这个简短的总结即可。 --- ### **分章节评估** 接下来，你可以直接评估稿件的每个部分。 * **标题、摘要和关键词**：评估标题是否准确概括了研究。如不准确，提出修改建议。摘要是否清晰、简洁？是否能让更广泛的科学读者理解？指出其中包含的无关信息或缺失的关键事实。关键词是否恰当并能反映稿件核心内容？ * **引言**：判断引言是否提供了充足且必要的背景信息，并清晰地阐述了研究目的。指出是否存在信息缺失、冗余，或者研究目的模糊、与稿件其他部分不一致的问题。**仅在绝对必要时**才建议补充关键参考文献。 * **材料与方法**：评估细节是否足以让他人重复实验。识别潜在的偏见、不充分的对照组，或对研究对象和实验流程描述不足之处。坚持要求结果测量指标和统计分析方法的清晰性与客观性。直接指出方法论上的缺陷或缺失的关键信息。**仅在对发表至关重要时**才建议补充实验。 * **结果与图表**：检查图表是否清晰、包含不确定性度量（如误差棒），并且不与正文内容重复。建议删除或合并图表，并在适当之处总结非核心结果。若发现任何可疑的图像处理痕迹，应向编辑指出。除非期刊格式要求，否则结果的解读应保留在讨论部分。 * **统计分析**：确保所用的统计检验方法适用于数据类型，并检查样本量选择的合理性以及偏见的来源。指出在实验可重复性、混杂变量控制、抽样、随机化以及统计显著性（如p值和显著性阈值）报告方面存在的问题。 * **评审综述文章**：判断所引文献的广度、准确性和时效性，以及文章的论述是否平衡、结构是否合乎逻辑。 * **讨论与结论**：评估作者是否结合相关背景恰当地解读了研究结果，并承认了研究的局限性。指出结论是否存在证据不足、夸大其词，或缺少对其他合理解释或已有文献的讨论等问题。 * **参考文献**：指出需要补充的引文、过时的参考文献、过度依赖某一研究团队的文献，或在支持性与矛盾性文献的引用之间缺乏平衡的问题。 --- ### **撰写审稿报告的原则** * **直截了当**：以坦率、直接的方式提出主要和次要问题。 * **避免客套**：避免不必要的恭维。除非稿件有非常突出的优点，否则不要在提出批评前先说赞扬的话。 * **具体且可操作**：保持反馈意见具体且具有可操作性，并在相关处引用页码和行号。 * **语言明确**：使用清晰、简洁、明确的语言，尤其是在指出**必须修改**之处时。 * **以清晰为重**：确保所有反馈都以**清晰和直接**为首要原则，而不是温和的语气或过度的鼓励。 * 请注意，请**不要**使用Markdown格式或表情符号。"#;
pub const DEFAULT_REVIEWER_SECONDARY_PROMPT: &'static str = r#"You are the head referee. You will receive up to eight independent reviews of the same academic manuscript. You should synthesize them into a single coherent review report. Generally speaking, points raised by multiple referees should be kept unless you really disagree with it. Conversely, points raised by only ine or two referees should be treated with a pinch of salt. You should only produce a single report and nothing else. Format of your report should be summary, points of concern, final recommendation, and nothing else. Generally, if two referees recommend rejection, you should seriously consider recommendating rejection. Note, do not use markdown grammar or emojis in your report."#;
pub const DEFAULT_REVIEWER_SECONDARY_PROMPT_ZH: &'static str = r#"你将扮演**首席审稿人**的角色。你会收到最多八份针对同一份学术稿件的独立审稿意见，你的任务是将它们**整合成一份连贯的综合审稿报告**。 在整合意见时，请遵循以下原则： * 对于**多位审稿人都提出的问题**，除非你本人有充分理由强烈反对，否则应当保留。 * 对于**仅由一两位审稿人提出的问题**，应持谨慎态度。 * 通常情况下，如果有**两位或以上审稿人建议拒稿**，你应认真考虑给出拒稿的最终建议。 你的输出**只能是一份报告**，不应包含任何其他内容，你的报告不应该提到存在多个审稿人这一事实。报告的格式必须严格遵循以下结构，且仅包含这三个部分： 1. **稿件总结** 2. **问题 (至少10点)** 3. **最终建议** * 请注意，请**不要**使用Markdown格式或表情符号。"#;
pub const DEFAULT_REVIEWER_FINAL_PROMPT: &'static str = r#"You are the final fact-checker of an academic review process. For the review report below, use the manuscript as the source of truth, verify factual claims and citations, correct any mistakes, flag unsupported assertions, and produce a final, publication-ready report. Do not give feedback to individual referee points. Only make necessary changes. If any point is factual, leave it unchanged. Include a short "Corrections made" section after the report. Note, do not use markdown grammar or emojis in your report."#;
pub const DEFAULT_REVIEWER_FINAL_PROMPT_ZH: &'static str = r#"你将扮演学术评审流程中的**最终事实核查员**。 对于下方提供的审稿报告，你需要以**原始稿件**作为唯一的事实依据，核查报告中的事实性陈述和引文信息。你的任务是纠正任何与原稿件内容不符的错误，标记出报告中缺少稿件证据支持的论断，并最终生成一份准确无误、可供发布的**终版报告**。 请遵循以下规则： * **不要**对审稿人提出的观点本身进行评论或反馈。你的工作仅限于事实层面的核对。 * **只进行必要的修改**。如果报告中的某项陈述经核查属实，请保持原样，不做改动。 * 在报告正文结束后，附上一个简短的"**修改说明**"(Corrections made)部分，列出你所做的所有修改。 * 请注意，请**不要**使用Markdown格式或表情符号。"#;
/// Models used by the summarizer.
#[derive(Clone, Debug)]
pub struct SummarizerModels {
    pub summary_model: String,
    pub translation_model: String,
}

/// The models shipped with the application.
pub fn default_summarizer_models() -> (res: SummarizerModels)
    ensures
        res.summary_model@ == DEFAULT_SUMMARIZER_SUMMARY_MODEL@,
        res.translation_model@ == DEFAULT_SUMMARIZER_TRANSLATION_MODEL@,
{
    SummarizerModels {
        summary_model: to_owned_string(DEFAULT_SUMMARIZER_SUMMARY_MODEL),
        translation_model: to_owned_string(DEFAULT_SUMMARIZER_TRANSLATION_MODEL),
    }
}

impl Default for SummarizerModels {
    fn default() -> (res: Self)
        ensures
            res.summary_model@ == DEFAULT_SUMMARIZER_SUMMARY_MODEL@,
            res.translation_model@ == DEFAULT_SUMMARIZER_TRANSLATION_MODEL@,
    {
        default_summarizer_models()
    }
}

/// Prompts of the summarizer.
#[derive(Clone, Debug)]
pub struct SummarizerPrompts {
    pub research_summary: String,
    pub general_summary: String,
    pub translation: String,
}

/// The prompts shipped with the application.
pub fn default_summarizer_prompts() -> (res: SummarizerPrompts)
    ensures
        res.research_summary@ == DEFAULT_SUMMARIZER_RESEARCH_SUMMARY@,
        res.general_summary@ == DEFAULT_SUMMARIZER_GENERAL_SUMMARY@,
        res.translation@ == DEFAULT_SUMMARIZER_TRANSLATION@,
{
    SummarizerPrompts {
        research_summary: to_owned_string(DEFAULT_SUMMARIZER_RESEARCH_SUMMARY),
        general_summary: to_owned_string(DEFAULT_SUMMARIZER_GENERAL_SUMMARY),
        translation: to_owned_string(DEFAULT_SUMMARIZER_TRANSLATION),
    }
}

impl Default for SummarizerPrompts {
    fn default() -> (res: Self)
        ensures
            res.research_summary@ == DEFAULT_SUMMARIZER_RESEARCH_SUMMARY@,
            res.general_summary@ == DEFAULT_SUMMARIZER_GENERAL_SUMMARY@,
            res.translation@ == DEFAULT_SUMMARIZER_TRANSLATION@,
    {
        default_summarizer_prompts()
    }
}

/// Model used by the DOCX translator.
#[derive(Clone, Debug)]
pub struct DocxTranslatorModels {
    pub translation_model: String,
}

/// The model shipped with the application.
pub fn default_docx_models() -> (res: DocxTranslatorModels)
    ensures
        res.translation_model@ == DEFAULT_DOCX_TRANSLATION_MODEL@,
{
    DocxTranslatorModels {
        translation_model: to_owned_string(DEFAULT_DOCX_TRANSLATION_MODEL),
    }
}

impl Default for DocxTranslatorModels {
    fn default() -> (res: Self)
        ensures
            res.translation_model@ == DEFAULT_DOCX_TRANSLATION_MODEL@,
    {
        default_docx_models()
    }
}

/// Prompts of the DOCX translator, one per direction.
#[derive(Clone, Debug)]
pub struct DocxTranslatorPrompts {
    pub en_to_cn: String,
    pub cn_to_en: String,
}

/// The prompts shipped with the application.
pub fn default_docx_prompts() -> (res: DocxTranslatorPrompts)
    ensures
        res.en_to_cn@ == DEFAULT_DOCX_EN_TO_CN@,
        res.cn_to_en@ == DEFAULT_DOCX_CN_TO_EN@,
{
    DocxTranslatorPrompts {
        en_to_cn: to_owned_string(DEFAULT_DOCX_EN_TO_CN),
        cn_to_en: to_owned_string(DEFAULT_DOCX_CN_TO_EN),
    }
}

impl Default for DocxTranslatorPrompts {
    fn default() -> (res: Self)
        ensures
            res.en_to_cn@ == DEFAULT_DOCX_EN_TO_CN@,
            res.cn_to_en@ == DEFAULT_DOCX_CN_TO_EN@,
    {
        default_docx_prompts()
    }
}

/// Models used by the manuscript grader.
#[derive(Clone, Debug)]
pub struct GraderModels {
    pub grading_model: String,
    pub keyword_model: String,
}

/// The models shipped with the application.
pub fn default_grader_models() -> (res: GraderModels)
    ensures
        res.grading_model@ == DEFAULT_GRADER_GRADING_MODEL@,
        res.keyword_model@ == DEFAULT_GRADER_KEYWORD_MODEL@,
{
    GraderModels {
        grading_model: to_owned_string(DEFAULT_GRADER_GRADING_MODEL),
        keyword_model: to_owned_string(DEFAULT_GRADER_KEYWORD_MODEL),
    }
}

impl Default for GraderModels {
    fn default() -> (res: Self)
        ensures
            res.grading_model@ == DEFAULT_GRADER_GRADING_MODEL@,
            res.keyword_model@ == DEFAULT_GRADER_KEYWORD_MODEL@,
    {
        default_grader_models()
    }
}

/// Prompts of the manuscript grader.
#[derive(Clone, Debug)]
pub struct GraderPrompts {
    pub grading_instructions: String,
    pub keyword_selection: String,
}

/// The prompts shipped with the application.
pub fn default_grader_prompts() -> (res: GraderPrompts)
    ensures
        res.grading_instructions@ == PROTOTYPE_GRADER_PROMPT@,
        res.keyword_selection@ == DEFAULT_GRADER_KEYWORD_SELECTION@,
{
    GraderPrompts {
        grading_instructions: to_owned_string(PROTOTYPE_GRADER_PROMPT),
        keyword_selection: to_owned_string(DEFAULT_GRADER_KEYWORD_SELECTION),
    }
}

impl Default for GraderPrompts {
    fn default() -> (res: Self)
        ensures
            res.grading_instructions@ == PROTOTYPE_GRADER_PROMPT@,
            res.keyword_selection@ == DEFAULT_GRADER_KEYWORD_SELECTION@,
    {
        default_grader_prompts()
    }
}

/// Models of the three review rounds.
#[derive(Clone, Debug)]
pub struct ReviewerModels {
    pub round1_model_1: String,
    pub round1_model_2: String,
    pub round1_model_3: String,
    pub round1_model_4: String,
    pub round1_model_5: String,
    pub round1_model_6: String,
    pub round1_model_7: String,
    pub round1_model_8: String,
    pub round2_model: String,
    pub round3_model: String,
}

/// The models shipped with the application.
pub fn default_reviewer_models() -> (res: ReviewerModels)
    ensures
        res.round1_model_1@ == DEFAULT_REVIEWER_ROUND1_MODEL_1@,
        res.round1_model_2@ == DEFAULT_REVIEWER_ROUND1_MODEL_2@,
        res.round1_model_3@ == DEFAULT_REVIEWER_ROUND1_MODEL_3@,
        res.round1_model_4@ == DEFAULT_REVIEWER_ROUND1_MODEL_4@,
        res.round1_model_5@ == DEFAULT_REVIEWER_ROUND1_MODEL_5@,
        res.round1_model_6@ == DEFAULT_REVIEWER_ROUND1_MODEL_6@,
        res.round1_model_7@ == DEFAULT_REVIEWER_ROUND1_MODEL_7@,
        res.round1_model_8@ == DEFAULT_REVIEWER_ROUND1_MODEL_8@,
        res.round2_model@ == DEFAULT_REVIEWER_ROUND2_MODEL@,
        res.round3_model@ == DEFAULT_REVIEWER_ROUND3_MODEL@,
{
    ReviewerModels {
        round1_model_1: to_owned_string(DEFAULT_REVIEWER_ROUND1_MODEL_1),
        round1_model_2: to_owned_string(DEFAULT_REVIEWER_ROUND1_MODEL_2),
        round1_model_3: to_owned_string(DEFAULT_REVIEWER_ROUND1_MODEL_3),
        round1_model_4: to_owned_string(DEFAULT_REVIEWER_ROUND1_MODEL_4),
        round1_model_5: to_owned_string(DEFAULT_REVIEWER_ROUND1_MODEL_5),
        round1_model_6: to_owned_string(DEFAULT_REVIEWER_ROUND1_MODEL_6),
        round1_model_7: to_owned_string(DEFAULT_REVIEWER_ROUND1_MODEL_7),
        round1_model_8: to_owned_string(DEFAULT_REVIEWER_ROUND1_MODEL_8),
        round2_model: to_owned_string(DEFAULT_REVIEWER_ROUND2_MODEL),
        round3_model: to_owned_string(DEFAULT_REVIEWER_ROUND3_MODEL),
    }
}

impl Default for ReviewerModels {
    fn default() -> (res: Self)
        ensures
            res.round1_model_1@ == DEFAULT_REVIEWER_ROUND1_MODEL_1@,
            res.round1_model_2@ == DEFAULT_REVIEWER_ROUND1_MODEL_2@,
            res.round1_model_3@ == DEFAULT_REVIEWER_ROUND1_MODEL_3@,
            res.round1_model_4@ == DEFAULT_REVIEWER_ROUND1_MODEL_4@,
            res.round1_model_5@ == DEFAULT_REVIEWER_ROUND1_MODEL_5@,
            res.round1_model_6@ == DEFAULT_REVIEWER_ROUND1_MODEL_6@,
            res.round1_model_7@ == DEFAULT_REVIEWER_ROUND1_MODEL_7@,
            res.round1_model_8@ == DEFAULT_REVIEWER_ROUND1_MODEL_8@,
            res.round2_model@ == DEFAULT_REVIEWER_ROUND2_MODEL@,
            res.round3_model@ == DEFAULT_REVIEWER_ROUND3_MODEL@,
    {
        default_reviewer_models()
    }
}

/// Prompts of the three review rounds, in English and Chinese.
#[derive(Clone, Debug)]
pub struct ReviewerPrompts {
    pub initial_prompt: String,
    pub initial_prompt_zh: String,
    pub secondary_prompt: String,
    pub secondary_prompt_zh: String,
    pub final_prompt: String,
    pub final_prompt_zh: String,
}

/// The prompts shipped with the application.
pub fn default_reviewer_prompts() -> (res: ReviewerPrompts)
    ensures
        res.initial_prompt@ == DEFAULT_REVIEWER_INITIAL_PROMPT@,
        res.initial_prompt_zh@ == DEFAULT_REVIEWER_INITIAL_PROMPT_ZH@,
        res.secondary_prompt@ == DEFAULT_REVIEWER_SECONDARY_PROMPT@,
        res.secondary_prompt_zh@ == DEFAULT_REVIEWER_SECONDARY_PROMPT_ZH@,
        res.final_prompt@ == DEFAULT_REVIEWER_FINAL_PROMPT@,
        res.final_prompt_zh@ == DEFAULT_REVIEWER_FINAL_PROMPT_ZH@,
{
    ReviewerPrompts {
        initial_prompt: to_owned_string(DEFAULT_REVIEWER_INITIAL_PROMPT),
        initial_prompt_zh: to_owned_string(DEFAULT_REVIEWER_INITIAL_PROMPT_ZH),
        secondary_prompt: to_owned_string(DEFAULT_REVIEWER_SECONDARY_PROMPT),
        secondary_prompt_zh: to_owned_string(DEFAULT_REVIEWER_SECONDARY_PROMPT_ZH),
        final_prompt: to_owned_string(DEFAULT_REVIEWER_FINAL_PROMPT),
        final_prompt_zh: to_owned_string(DEFAULT_REVIEWER_FINAL_PROMPT_ZH),
    }
}

impl Default for ReviewerPrompts {
    fn default() -> (res: Self)
        ensures
            res.initial_prompt@ == DEFAULT_REVIEWER_INITIAL_PROMPT@,
            res.initial_prompt_zh@ == DEFAULT_REVIEWER_INITIAL_PROMPT_ZH@,
            res.secondary_prompt@ == DEFAULT_REVIEWER_SECONDARY_PROMPT@,
            res.secondary_prompt_zh@ == DEFAULT_REVIEWER_SECONDARY_PROMPT_ZH@,
            res.final_prompt@ == DEFAULT_REVIEWER_FINAL_PROMPT@,
            res.final_prompt_zh@ == DEFAULT_REVIEWER_FINAL_PROMPT_ZH@,
    {
        default_reviewer_prompts()
    }
}

/// The summarizer's models and prompts.
#[derive(Clone, Debug)]
pub struct SummarizerSettings {
    pub models: SummarizerModels,
    pub prompts: SummarizerPrompts,
}

/// The DOCX translator's model and prompts.
#[derive(Clone, Debug)]
pub struct DocxTranslatorSettings {
    pub models: DocxTranslatorModels,
    pub prompts: DocxTranslatorPrompts,
}

/// The grader's models and prompts.
#[derive(Clone, Debug)]
pub struct GraderSettings {
    pub models: GraderModels,
    pub prompts: GraderPrompts,
}

/// The referee's models and prompts.
#[derive(Clone, Debug)]
pub struct ReviewerSettings {
    pub models: ReviewerModels,
    pub prompts: ReviewerPrompts,
}

/// Model used by the information extractor.
#[derive(Clone, Debug)]
pub struct InfoExtractModels {
    pub extraction_model: String,
}

/// Prompts of the information extractor.
#[derive(Clone, Debug)]
pub struct InfoExtractPrompts {
    pub system_prompt: String,
    pub response_guidance: String,
}

/// The modules whose settings are stored, by their stored names.
#[derive(Clone, Copy, Debug, PartialEq, Eq, Structural)]
pub enum ConfiguredModule {
    Summarizer,
    TranslateDocx,
    Grader,
    Reviewer,
}

impl ConfiguredModule {
    pub open spec fn spec_name(self) -> Seq<char> {
        match self {
            ConfiguredModule::Summarizer => "summarizer"@,
            ConfiguredModule::TranslateDocx => "translate_docx"@,
            ConfiguredModule::Grader => "grader"@,
            ConfiguredModule::Reviewer => "referee"@,
        }
    }

    /// The name under which the module's settings are stored.
    pub fn as_str(&self) -> (res: &'static str)
        ensures
            res@ == self.spec_name(),
    {
        match self {
            ConfiguredModule::Summarizer => "summarizer",
            ConfiguredModule::TranslateDocx => "translate_docx",
            ConfiguredModule::Grader => "grader",
            ConfiguredModule::Reviewer => "referee",
        }
    }
}

/// The module stored under `name`, if any.
pub open spec fn module_named(name: Seq<char>) -> Option<ConfiguredModule> {
    if name == "summarizer"@ {
        Some(ConfiguredModule::Summarizer)
    } else if name == "translate_docx"@ {
        Some(ConfiguredModule::TranslateDocx)
    } else if name == "grader"@ {
        Some(ConfiguredModule::Grader)
    } else if name == "referee"@ {
        Some(ConfiguredModule::Reviewer)
    } else {
        None
    }
}

/// A stored name that belongs to no module.
#[derive(Clone, Debug)]
pub struct UnknownModule {
    pub name: String,
}

impl UnknownModule {
    /// The message reported when such a name is found.
    pub fn message(&self) -> (res: String)
        ensures
            res@ == "unknown module configuration found: "@ + self.name@,
    {
        let mut out = to_owned_string("unknown module configuration found: ");
        push_str(&mut out, self.name.as_str());
        out
    }
}

/// Finds the module stored under `name`.
pub fn configured_module(name: &str) -> (res: Result<ConfiguredModule, UnknownModule>)
    ensures
        match res {
            Ok(m) => module_named(name@) == Some(m),
            Err(e) => module_named(name@) is None && e.name@ == name@,
        },
{
    if str_eq(name, "summarizer") {
        Ok(ConfiguredModule::Summarizer)
    } else if str_eq(name, "translate_docx") {
        Ok(ConfiguredModule::TranslateDocx)
    } else if str_eq(name, "grader") {
        Ok(ConfiguredModule::Grader)
    } else if str_eq(name, "referee") {
        Ok(ConfiguredModule::Reviewer)
    } else {
        Err(UnknownModule { name: to_owned_string(name) })
    }
}

/// The settings of one module, as read from storage.
#[derive(Clone, Debug)]
pub enum ModuleConfig {
    Summarizer(SummarizerSettings),
    TranslateDocx(DocxTranslatorSettings),
    Grader(GraderSettings),
    Reviewer(ReviewerSettings),
}

/// The settings of every configured module; a module without stored
/// settings has none.
#[derive(Clone, Debug)]
pub struct ModuleSettings {
    summarizer: Option<SummarizerSettings>,
    translate_docx: Option<DocxTranslatorSettings>,
    grader: Option<GraderSettings>,
    referee: Option<ReviewerSettings>,
}

impl Default for ModuleSettings {
    fn default() -> (res: Self)
        ensures
            res.summarizer_settings() is None,
            res.translate_docx_settings() is None,
            res.grader_settings() is None,
            res.reviewer_settings() is None,
    {
        ModuleSettings { summarizer: None, translate_docx: None, grader: None, referee: None }
    }
}

impl ModuleSettings {
    pub closed spec fn summarizer_settings(self) -> Option<SummarizerSettings> {
        self.summarizer
    }

    pub closed spec fn translate_docx_settings(self) -> Option<DocxTranslatorSettings> {
        self.translate_docx
    }

    pub closed spec fn grader_settings(self) -> Option<GraderSettings> {
        self.grader
    }

    pub closed spec fn reviewer_settings(self) -> Option<ReviewerSettings> {
        self.referee
    }

    /// Records the settings of one module, replacing what it had.
    pub fn install(&mut self, config: ModuleConfig)
        ensures
            match config {
                ModuleConfig::Summarizer(s) => final(self).summarizer_settings() == Some(s)
                    && final(self).translate_docx_settings() == old(self).translate_docx_settings()
                    && final(self).grader_settings() == old(self).grader_settings()
                    && final(self).reviewer_settings() == old(self).reviewer_settings(),
                ModuleConfig::TranslateDocx(s) => final(self).translate_docx_settings() == Some(s)
                    && final(self).summarizer_settings() == old(self).summarizer_settings()
                    && final(self).grader_settings() == old(self).grader_settings()
                    && final(self).reviewer_settings() == old(self).reviewer_settings(),
                ModuleConfig::Grader(s) => final(self).grader_settings() == Some(s)
                    && final(self).summarizer_settings() == old(self).summarizer_settings()
                    && final(self).translate_docx_settings() == old(self).translate_docx_settings()
                    && final(self).reviewer_settings() == old(self).reviewer_settings(),
                ModuleConfig::Reviewer(s) => final(self).reviewer_settings() == Some(s)
                    && final(self).summarizer_settings() == old(self).summarizer_settings()
                    && final(self).translate_docx_settings() == old(self).translate_docx_settings()
                    && final(self).grader_settings() == old(self).grader_settings(),
            },
    {
        match config {
            ModuleConfig::Summarizer(s) => self.summarizer = Some(s),
            ModuleConfig::TranslateDocx(s) => self.translate_docx = Some(s),
            ModuleConfig::Grader(s) => self.grader = Some(s),
            ModuleConfig::Reviewer(s) => self.referee = Some(s),
        }
    }

    /// The summarizer's settings, if stored.
    pub fn summarizer(&self) -> (res: Option<&SummarizerSettings>)
        ensures
            res.is_some() == self.summarizer_settings().is_some(),
            res.is_some() ==> *res.unwrap() == self.summarizer_settings().unwrap(),
    {
        self.summarizer.as_ref()
    }

    /// The DOCX translator's settings, if stored.
    pub fn translate_docx(&self) -> (res: Option<&DocxTranslatorSettings>)
        ensures
            res.is_some() == self.translate_docx_settings().is_some(),
            res.is_some() ==> *res.unwrap() == self.translate_docx_settings().unwrap(),
    {
        self.translate_docx.as_ref()
    }

    /// The grader's settings, if stored.
    pub fn grader(&self) -> (res: Option<&GraderSettings>)
        ensures
            res.is_some() == self.grader_settings().is_some(),
            res.is_some() ==> *res.unwrap() == self.grader_settings().unwrap(),
    {
        self.grader.as_ref()
    }

    /// The paper review tool's settings, if stored.
    pub fn reviewer(&self) -> (res: Option<&ReviewerSettings>)
        ensures
            res.is_some() == self.reviewer_settings().is_some(),
            res.is_some() ==> *res.unwrap() == self.reviewer_settings().unwrap(),
    {
        self.referee.as_ref()
    }
}

} // verus!
