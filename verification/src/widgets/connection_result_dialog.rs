use crate::boundary::models::ConnectResponse;
use crate::text::join3;
use vstd::prelude::*;

verus! {

/// The notice that a session was brokered, with the credentials to use on it.
pub struct ConnectResponseDialog<'a> {
    connect_result: &'a ConnectResponse,
}

/// The line that shows one set of credentials: the user name, a colon and a
/// blank, and the password.
pub open spec fn credential_line(username: Seq<char>, password: Seq<char>) -> Seq<char> {
    username + ": "@ + password
}

/// The first `n` lines below the dialog's message: for each set of
/// credentials an empty line and the line that shows it.
pub open spec fn credential_lines(response: &ConnectResponse, n: nat) -> Seq<Seq<char>>
    decreases n,
{
    if n == 0 {
        Seq::empty()
    } else {
        credential_lines(response, (n - 1) as nat).push(Seq::empty()).push(
            credential_line(
                response.credentials@[n - 1].credential.username@,
                response.credentials@[n - 1].credential.password@,
            ),
        )
    }
}

impl<'a> ConnectResponseDialog<'a> {
    /// What the dialog reports on.
    pub closed spec fn response(&self) -> &ConnectResponse {
        self.connect_result
    }

    pub fn new(connect_result: &'a ConnectResponse) -> (dialog: Self)
        ensures
            dialog.response() == connect_result,
    {
        Self { connect_result }
    }

    /// The dialog's title.
    pub fn title(&self) -> (title: &'static str)
        ensures
            title@ == "Success"@,
    {
        "Success"
    }

    /// The lines of the dialog: an empty line, the message, and then the
    /// credentials, each below an empty line.
    pub fn lines(&self) -> (lines: Vec<String>)
        ensures
            crate::boundary::models::texts(lines@) == seq![
                Seq::<char>::empty(),
                "Connection established"@,
            ] + credential_lines(self.response(), self.response().credentials@.len()),
    {
        let mut lines: Vec<String> = Vec::new();
        lines.push(String::new());
        lines.push("Connection established".to_owned());
        let ghost head = seq![Seq::<char>::empty(), "Connection established"@];
        assert(crate::boundary::models::texts(lines@) =~= head);
        let credentials = &self.connect_result.credentials;
        let mut i: usize = 0;
        while i < credentials.len()
            invariant
                i <= credentials@.len(),
                credentials@ == self.response().credentials@,
                head == seq![Seq::<char>::empty(), "Connection established"@],
                crate::boundary::models::texts(lines@) == head + credential_lines(
                    self.response(),
                    i as nat,
                ),
            decreases credentials@.len() - i,
        {
            let ghost before = crate::boundary::models::texts(lines@);
            lines.push(String::new());
            let line = join3(
                credentials[i].credential.username.as_str(),
                ": ",
                credentials[i].credential.password.as_str(),
            );
            lines.push(line);
            proof {
                assert(crate::boundary::models::texts(lines@) =~= before.push(Seq::empty()).push(
                    credential_line(
                        credentials@[i as int].credential.username@,
                        credentials@[i as int].credential.password@,
                    ),
                ));
                assert(head + credential_lines(self.response(), (i + 1) as nat) =~= (head
                    + credential_lines(self.response(), i as nat)).push(Seq::empty()).push(
                    credential_line(
                        credentials@[i as int].credential.username@,
                        credentials@[i as int].credential.password@,
                    ),
                ));
            }
            i += 1;
        }
        lines
    }
}

} // verus!
