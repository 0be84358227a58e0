//! `template`: the commands that print a draft as it is.

use vstd::prelude::*;

use crate::cli::template::forward::TemplateForwardCommand;
use crate::template::compose::cli::TemplateComposeCommand;
use crate::template::reply::cli::TemplateReplyCommand;

verus! {

/// Print a draft: of a new message, of a reply, or of a forward.
pub enum TemplateCommand {
    Compose(TemplateComposeCommand),
    Reply(TemplateReplyCommand),
    Forward(TemplateForwardCommand),
}

} // verus!
