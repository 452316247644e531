use vstd::prelude::*;

verus! {

/// Name plate printed when a run starts.
pub fn banner() -> (text: &'static str)
    ensures
        text@.len() > 0,
{
    let text = r#"
████████╗██╗██████╗ ███████╗
╚══██╔══╝██║██╔══██╗██╔════╝
   ██║   ██║██║  ██║█████╗
   ██║   ██║██║  ██║██╔══╝
   ██║   ██║██████╔╝███████╗
   ╚═╝   ╚═╝╚═════╝ ╚══════╝
"#;
    proof {
        reveal_strlit(
            r#"
████████╗██╗██████╗ ███████╗
╚══██╔══╝██║██╔══██╗██╔════╝
   ██║   ██║██║  ██║█████╗
   ██║   ██║██║  ██║██╔══╝
   ██║   ██║██████╔╝███████╗
   ╚═╝   ╚═╝╚═════╝ ╚══════╝
"#,
        );
    }
    text
}

} // verus!
