use vstd::prelude::*;

use crate::config::RequestLoggerConfig;
use crate::logger::Dispatch;
use crate::record::{agent_text, console_line, fields_text, file_line, RequestLog};
use crate::status::{emoji_of, StatusCategory};
use crate::text::{decimal, digit_char};

verus! {

/// No character of `s` is a line break.
pub open spec fn single_line(s: Seq<char>) -> bool {
    forall|i: int| 0 <= i < s.len() ==> #[trigger] s[i] != '\n'
}

/// `part` occurs in `s` as a contiguous run.
pub open spec fn contains(s: Seq<char>, part: Seq<char>) -> bool {
    exists|i: int| 0 <= i && i + part.len() <= s.len() && #[trigger] s.subrange(i, i + part.len()) == part
}

proof fn lemma_single_line_concat(a: Seq<char>, b: Seq<char>)
    requires
        single_line(a),
        single_line(b),
    ensures
        single_line(a + b),
{
    assert forall|i: int| 0 <= i < (a + b).len() implies #[trigger] (a + b)[i] != '\n' by {
        if i < a.len() {
            assert((a + b)[i] == a[i]);
        } else {
            assert((a + b)[i] == b[i - a.len()]);
        }
    }
}

proof fn lemma_decimal_single_line(n: nat)
    ensures
        single_line(decimal(n)),
    decreases n,
{
    if n >= 10 {
        lemma_decimal_single_line(n / 10);
        let last = seq![digit_char((n % 10) as int)];
        assert(single_line(last));
        lemma_single_line_concat(decimal(n / 10), last);
    } else {
        assert(single_line(seq![digit_char(n as int)]));
    }
}

proof fn lemma_emoji_single_line(c: StatusCategory)
    ensures
        single_line(emoji_of(c)),
{
    reveal_strlit("✅");
    reveal_strlit("↩️");
    reveal_strlit("❌");
    reveal_strlit("💥");
    reveal_strlit("❓");
}

proof fn lemma_fields_single_line(log: RequestLog)
    requires
        single_line(log.method@),
        single_line(log.uri@),
        single_line(log.client_ip@),
        single_line(agent_text(log.user_agent)),
    ensures
        single_line(fields_text(log)),
{
    reveal_strlit(" ");
    reveal_strlit(" - ");
    reveal_strlit("ms [");
    reveal_strlit("->");
    reveal_strlit("] ");
    lemma_decimal_single_line(log.status_code as nat);
    lemma_decimal_single_line(log.response_time_ms as nat);
    lemma_decimal_single_line(log.request_size as nat);
    lemma_decimal_single_line(log.response_size as nat);
    let s1 = log.method@ + " "@;
    lemma_single_line_concat(log.method@, " "@);
    let s2 = s1 + log.uri@;
    lemma_single_line_concat(s1, log.uri@);
    let s3 = s2 + " "@;
    lemma_single_line_concat(s2, " "@);
    let s4 = s3 + log.client_ip@;
    lemma_single_line_concat(s3, log.client_ip@);
    let s5 = s4 + " - "@;
    lemma_single_line_concat(s4, " - "@);
    let s6 = s5 + decimal(log.status_code as nat);
    lemma_single_line_concat(s5, decimal(log.status_code as nat));
    let s7 = s6 + " "@;
    lemma_single_line_concat(s6, " "@);
    let s8 = s7 + decimal(log.response_time_ms as nat);
    lemma_single_line_concat(s7, decimal(log.response_time_ms as nat));
    let s9 = s8 + "ms ["@;
    lemma_single_line_concat(s8, "ms ["@);
    let s10 = s9 + decimal(log.request_size as nat);
    lemma_single_line_concat(s9, decimal(log.request_size as nat));
    let s11 = s10 + "->"@;
    lemma_single_line_concat(s10, "->"@);
    let s12 = s11 + decimal(log.response_size as nat);
    lemma_single_line_concat(s11, decimal(log.response_size as nat));
    let s13 = s12 + "] "@;
    lemma_single_line_concat(s12, "] "@);
    lemma_single_line_concat(s13, agent_text(log.user_agent));
}

/// The file sink writes one line per record: its only line break is the
/// last character, provided no captured field holds a line break, and it
/// holds the request's method and URI.
pub proof fn lemma_file_line_is_one_line(log: RequestLog)
    requires
        single_line(log.method@),
        single_line(log.uri@),
        single_line(log.client_ip@),
        single_line(agent_text(log.user_agent)),
    ensures
        file_line(log).len() > 0,
        file_line(log).last() == '\n',
        single_line(file_line(log).drop_last()),
        contains(file_line(log), log.method@),
        contains(file_line(log), log.uri@),
{
    reveal_strlit(" [");
    reveal_strlit("] ");
    reveal_strlit(" ");
    reveal_strlit("\n");
    let head = decimal(log.timestamp as nat) + " ["@ + emoji_of(log.status_category) + "] "@;
    lemma_decimal_single_line(log.timestamp as nat);
    lemma_emoji_single_line(log.status_category);
    lemma_single_line_concat(decimal(log.timestamp as nat), " ["@);
    lemma_single_line_concat(decimal(log.timestamp as nat) + " ["@, emoji_of(log.status_category));
    lemma_single_line_concat(
        decimal(log.timestamp as nat) + " ["@ + emoji_of(log.status_category),
        "] "@,
    );
    let fields = fields_text(log);
    lemma_fields_single_line(log);
    lemma_single_line_concat(head, fields);
    let line = file_line(log);
    assert(line == head + fields + "\n"@);
    assert(line.drop_last() =~= head + fields);
    let m = log.method@;
    let u = log.uri@;
    let i = head.len() as int;
    assert(line.subrange(i, i + m.len()) =~= m);
    let j = i + m.len() + 1;
    assert(line.subrange(j, j + u.len()) =~= u);
}

/// A record without a user agent renders `Unknown` at the end of its console
/// line, and just before the newline of its file line.
pub proof fn lemma_missing_agent_renders_unknown(log: RequestLog)
    requires
        log.user_agent is None,
    ensures
        console_line(log).len() >= "Unknown"@.len(),
        console_line(log).subrange(
            console_line(log).len() - "Unknown"@.len(),
            console_line(log).len() as int,
        ) == "Unknown"@,
        file_line(log).len() >= "Unknown"@.len() + 1,
        file_line(log).subrange(
            file_line(log).len() - "Unknown"@.len() - 1,
            file_line(log).len() - 1,
        ) == "Unknown"@,
{
    let k = "Unknown"@;
    let f = fields_text(log);
    assert(agent_text(log.user_agent) == k);
    let c = console_line(log);
    assert(f.subrange(f.len() - k.len(), f.len() as int) =~= k);
    assert(c.subrange(c.len() - k.len(), c.len() as int) =~= k);
    let l = file_line(log);
    reveal_strlit("\n");
    assert(l.subrange(l.len() - k.len() - 1, l.len() - 1) =~= k);
}

/// With both sinks disabled, nothing is dispatched for any record.
pub proof fn lemma_disabled_sinks_dispatch_nothing(
    d: Dispatch,
    config: RequestLoggerConfig,
    log: RequestLog,
)
    requires
        d.describes(config, log),
        !config.log_to_console,
        !config.log_to_file,
    ensures
        d.is_empty(),
{
}

} // verus!
