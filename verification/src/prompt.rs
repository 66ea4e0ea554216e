//! The system prompt of a user's conversation, and where the user data is kept.
use vstd::prelude::*;
use vstd::string::*;

use crate::text::{join_len, join_offset, join_strings, lemma_join_offsets_fit, lemma_seq_join_holds_items, same_text, seq_join, string_views};

verus! {

/// The prompt up to the user's name.
pub const PROMPT_HEAD: &'static str = "You are a chatbot designed to help older people deal with the isolation that comes from loneliness, difficulties handling the troubles of aging and various neurological disorders like dementia by being a warm, helpful companion. In order to maintain persistence between sessions you will give two answers to each response. The first answer will tell the backend admin what information you believe to be relevant for ongoing sessions. If there is no such information, or the information is already within the original prompt, do NOT provide any text. Do not add a newline at the end of replies. Only include information that would be relevant across sessions, like favorite activities or family members names. If there is no relevant information - use the text \"Reply to Admin: No relevant information provided.\" The second answer will be a response to a specific user following the overall guidelines. Be kind, gentle, and helpful to them. Today you are helping: {User: ";

/// The prompt between the user's name and what is known of the user.
pub const PROMPT_MIDDLE: &'static str = ", Info: ";

/// The prompt after what is known of the user.
pub const PROMPT_TAIL: &'static str = "}. Format your responses like below, Reply to Admin: {first response goes here}, Reply to User: {Second response goes here}";

/// The system prompt for `user_name`, given what is known of the user, one
/// item after another, joined by ", ".
pub open spec fn prompt_for(user_name: Seq<char>, info: Seq<Seq<char>>) -> Seq<char> {
    PROMPT_HEAD@ + user_name + PROMPT_MIDDLE@ + seq_join(info, ", "@) + PROMPT_TAIL@
}

/// The prompt names the user and holds every stored item, whole and in the
/// order stored, separated by ", " and by nothing else, between the fixed
/// texts round them; nothing else stands in it.
pub proof fn lemma_prompt_holds_every_item(user_name: Seq<char>, info: Seq<Seq<char>>)
    ensures
        ({
            let p = prompt_for(user_name, info);
            let start: int = (PROMPT_HEAD@.len() + user_name.len() + PROMPT_MIDDLE@.len()) as int;
            &&& p.take(PROMPT_HEAD@.len() as int) == PROMPT_HEAD@
            &&& p.subrange(PROMPT_HEAD@.len() as int, PROMPT_HEAD@.len() + user_name.len() as int)
                == user_name
            &&& p.subrange(PROMPT_HEAD@.len() + user_name.len() as int, start) == PROMPT_MIDDLE@
            &&& p.len() == start + join_len(info, 2) + PROMPT_TAIL@.len()
            &&& p.skip(p.len() - PROMPT_TAIL@.len()) == PROMPT_TAIL@
            &&& forall|i: int|
                0 <= i < info.len() ==> p.subrange(
                    start + join_offset(info, 2, i),
                    start + join_offset(info, 2, i) + info[i].len(),
                ) == #[trigger] info[i]
            &&& forall|i: int|
                0 <= i < info.len() - 1 ==> p.subrange(
                    start + join_offset(info, 2, i) + (#[trigger] info[i]).len(),
                    start + join_offset(info, 2, i + 1),
                ) == ", "@
        }),
{
    reveal_strlit(", ");
    let sep = ", "@;
    let j = seq_join(info, sep);
    lemma_seq_join_holds_items(info, sep);
    let p = prompt_for(user_name, info);
    let h = PROMPT_HEAD@.len() as int;
    let front = PROMPT_HEAD@ + user_name + PROMPT_MIDDLE@;
    let start: int = front.len() as int;
    assert(p == front + j + PROMPT_TAIL@);
    assert(p.take(h) =~= PROMPT_HEAD@);
    assert(p.subrange(h, h + user_name.len()) =~= user_name);
    assert(p.subrange(h + user_name.len(), start) =~= PROMPT_MIDDLE@);
    assert(p.skip(p.len() - PROMPT_TAIL@.len()) =~= PROMPT_TAIL@);
    assert forall|i: int| 0 <= i < info.len() implies p.subrange(
        start + join_offset(info, 2, i),
        start + join_offset(info, 2, i) + info[i].len(),
    ) == #[trigger] info[i] by {
        let x = join_offset(info, 2, i);
        lemma_join_offsets_fit(info, sep, i);
        lemma_inner_subrange(front, j, PROMPT_TAIL@, x, x + info[i].len());
    }
    assert forall|i: int| 0 <= i < info.len() - 1 implies p.subrange(
        start + join_offset(info, 2, i) + (#[trigger] info[i]).len(),
        start + join_offset(info, 2, i + 1),
    ) == ", "@ by {
        let x = join_offset(info, 2, i) + info[i].len();
        let y = join_offset(info, 2, i + 1);
        lemma_join_offsets_fit(info, sep, i);
        lemma_inner_subrange(front, j, PROMPT_TAIL@, x, y);
    }
}

/// A stretch of the middle part of `a + j + t` is that stretch of `j`.
proof fn lemma_inner_subrange(a: Seq<char>, j: Seq<char>, t: Seq<char>, x: int, y: int)
    requires
        0 <= x <= y <= j.len(),
    ensures
        (a + j + t).subrange(a.len() + x, a.len() + y) == j.subrange(x, y),
{
    assert((a + j + t).subrange(a.len() + x, a.len() + y) =~= j.subrange(x, y));
}

/// The system prompt that tells the model how to answer `user_name`, and
/// what is known of the user (`info`, in the order it was stored).
pub fn get_prompt(user_name: &str, info: &Vec<String>) -> (prompt: String)
    ensures
        prompt@ == prompt_for(user_name@, string_views(info@)),
{
    let joined = join_strings(info, ", ");
    let mut prompt = PROMPT_HEAD.to_owned();
    prompt.append(user_name);
    prompt.append(PROMPT_MIDDLE);
    prompt.append(joined.as_str());
    prompt.append(PROMPT_TAIL);
    prompt
}

/// The name of the folder that holds the user data, inside the documents folder.
pub const DATA_FOLDER: &'static str = "openAI_sencit_test";

/// The name of the database file inside that folder.
pub const DATABASE_FILE: &'static str = "openAI_sencit_test.db";

/// The folder that holds the user data: the documents folder `documents`,
/// then a backslash on Windows and a slash elsewhere, then the folder name.
pub open spec fn data_folder_path(documents: Seq<char>, os: Seq<char>) -> Seq<char> {
    if os == "windows"@ {
        documents + "\\"@ + DATA_FOLDER@
    } else {
        documents + "/"@ + DATA_FOLDER@
    }
}

/// On Windows the data folder is joined to the documents folder with a
/// backslash, elsewhere with a slash; the database file keeps its name.
pub proof fn lemma_data_folder_per_system(documents: Seq<char>, os: Seq<char>)
    ensures
        data_folder_path(documents, "windows"@) == documents + "\\openAI_sencit_test"@,
        os != "windows"@ ==> data_folder_path(documents, os) == documents + "/openAI_sencit_test"@,
        DATABASE_FILE@ == "openAI_sencit_test.db"@,
{
    reveal_strlit("\\");
    reveal_strlit("/");
    reveal_strlit("openAI_sencit_test");
    reveal_strlit("\\openAI_sencit_test");
    reveal_strlit("/openAI_sencit_test");
    assert(documents + "\\"@ + DATA_FOLDER@ =~= documents + "\\openAI_sencit_test"@);
    assert(documents + "/"@ + DATA_FOLDER@ =~= documents + "/openAI_sencit_test"@);
}

/// The folder that holds the user data, for the operating system named `os`
/// (as `std::env::consts::OS` names it).
pub fn data_folder(documents: &str, os: &str) -> (path: String)
    ensures
        path@ == data_folder_path(documents@, os@),
{
    let mut path = documents.to_owned();
    if same_text(os, "windows") {
        path.append("\\");
    } else {
        path.append("/");
    }
    path.append(DATA_FOLDER);
    path
}

} // verus!
