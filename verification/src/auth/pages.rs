//! The pages shown at the end of the OAuth2 authorization: success, success with a
//! warning when the token could not be saved, and failure.

use vstd::prelude::*;
use crate::auth::client::AuthorizedTeam;
use crate::text::{joined, owned, push_str};

verus! {

/// The opening of the box that lists the authorized workspaces.
pub open spec fn teams_box_start() -> Seq<char> {
    "\n            <div class=\"teams-box\">\n                <h3>✅ Workspaces Autorizados:</h3>\n                <ul>"@
}

/// The closing of the box that lists the authorized workspaces.
pub open spec fn teams_box_end() -> Seq<char> {
    "</ul>\n            </div>\n            "@
}

/// The success page up to the workspaces.
pub open spec fn success_page_start() -> Seq<char> {
    "\n        <!DOCTYPE html>\n        <html>\n        <head>\n            <title>ClickUp OAuth - Sucesso</title>\n            <meta charset=\"UTF-8\">\n            <style>\n                body { font-family: -apple-system, BlinkMacSystemFont, 'Segoe UI', Arial, sans-serif;\n                       max-width: 900px; margin: 50px auto; padding: 20px; background: #f5f5f5; }\n                .container { background: white; padding: 30px; border-radius: 12px; box-shadow: 0 2px 10px rgba(0,0,0,0.1); }\n                .success { background: #d4edda; border: 2px solid #28a745; padding: 20px; border-radius: 8px; margin-bottom: 20px; }\n                .token-box { background: #fff3cd; padding: 20px; border: 2px solid #ffc107; border-radius: 8px; margin: 20px 0; }\n                .teams-box { background: #d1ecf1; padding: 20px; border: 2px solid #17a2b8; border-radius: 8px; margin: 20px 0; }\n                textarea { width: 100%; padding: 12px; font-family: 'Courier New', monospace;\n                           font-size: 11px; border: 1px solid #ddd; border-radius: 4px; resize: vertical; }\n                button { background: #28a745; color: white; padding: 12px 24px; border: none;\n                         border-radius: 6px; cursor: pointer; font-size: 14px; font-weight: bold; }\n                button:hover { background: #218838; }\n                h1 { color: #28a745; margin-top: 0; }\n                h3 { margin-top: 0; color: #333; }\n                ul { padding-left: 20px; }\n                li { margin: 8px 0; }\n                .footer { text-align: center; margin-top: 30px; color: #666; font-size: 12px; }\n            </style>\n            <script>\n                function copyToken() {\n                    const textarea = document.getElementById('token');\n                    textarea.select();\n                    navigator.clipboard.writeText(textarea.value);\n                    const btn = document.getElementById('copyBtn');\n                    btn.textContent = '✅ Copiado!';\n                    setTimeout(() => { btn.textContent = '📋 Copiar Token'; }, 2000);\n                }\n            </script>\n        </head>\n        <body>\n            <div class=\"container\">\n                <div class=\"success\">\n                    <h1>✅ Autorização OAuth2 Concluída!</h1>\n                    <p>Seu token foi gerado e salvo automaticamente no Secret Manager.</p>\n                </div>\n\n                "@
}

/// The success page between the workspaces and the token.
pub open spec fn success_page_middle() -> Seq<char> {
    "\n\n                <div class=\"token-box\">\n                    <h3>🔑 Access Token (para referência):</h3>\n                    <textarea id=\"token\" rows=\"4\" readonly>"@
}

/// The success page after the token.
pub open spec fn success_page_end() -> Seq<char> {
    "</textarea>\n                    <button id=\"copyBtn\" onclick=\"copyToken()\">📋 Copiar Token</button>\n                </div>\n\n                <div class=\"footer\">\n                    <p>✅ Sistema pronto para usar! O middleware já pode criar folders e spaces no ClickUp.</p>\n                    <p>Você pode fechar esta janela.</p>\n                </div>\n            </div>\n        </body>\n        </html>\n        "@
}

/// The warning page up to the warning.
pub open spec fn warning_page_start() -> Seq<char> {
    "\n        <!DOCTYPE html>\n        <html>\n        <head>\n            <title>ClickUp OAuth - Atenção</title>\n            <meta charset=\"UTF-8\">\n            <style>\n                body { font-family: -apple-system, BlinkMacSystemFont, 'Segoe UI', Arial, sans-serif;\n                       max-width: 900px; margin: 50px auto; padding: 20px; background: #f5f5f5; }\n                .container { background: white; padding: 30px; border-radius: 12px; box-shadow: 0 2px 10px rgba(0,0,0,0.1); }\n                .warning { background: #fff3cd; border: 2px solid #ffc107; padding: 20px; border-radius: 8px; margin-bottom: 20px; }\n                .token-box { background: #f8d7da; padding: 20px; border: 2px solid #dc3545; border-radius: 8px; margin: 20px 0; }\n                .teams-box { background: #d1ecf1; padding: 20px; border: 2px solid #17a2b8; border-radius: 8px; margin: 20px 0; }\n                textarea { width: 100%; padding: 12px; font-family: 'Courier New', monospace;\n                           font-size: 11px; border: 1px solid #ddd; border-radius: 4px; resize: vertical; }\n                button { background: #dc3545; color: white; padding: 12px 24px; border: none;\n                         border-radius: 6px; cursor: pointer; font-size: 14px; font-weight: bold; }\n                button:hover { background: #c82333; }\n                h1 { color: #856404; margin-top: 0; }\n                h3 { margin-top: 0; color: #333; }\n                ul { padding-left: 20px; }\n                li { margin: 8px 0; }\n            </style>\n            <script>\n                function copyToken() {\n                    const textarea = document.getElementById('token');\n                    textarea.select();\n                    navigator.clipboard.writeText(textarea.value);\n                    const btn = document.getElementById('copyBtn');\n                    btn.textContent = '✅ Copiado!';\n                    setTimeout(() => { btn.textContent = '📋 Copiar Token'; }, 2000);\n                }\n            </script>\n        </head>\n        <body>\n            <div class=\"container\">\n                <div class=\"warning\">\n                    <h1>⚠️  Token Obtido, mas com Aviso</h1>\n                    <p>O token foi gerado com sucesso, mas houve um problema ao salvar automaticamente:</p>\n                    <p><strong>"@
}

/// The warning page between the warning and the workspaces.
pub open spec fn warning_page_after_warning() -> Seq<char> {
    "</strong></p>\n                    <p>Por favor, copie o token abaixo e salve manualmente usando o comando:</p>\n                    <pre>gcloud secrets versions add clickup-oauth-token --data-file=-</pre>\n                </div>\n\n                "@
}

/// The warning page between the workspaces and the token.
pub open spec fn warning_page_middle() -> Seq<char> {
    "\n\n                <div class=\"token-box\">\n                    <h3>🔑 Access Token:</h3>\n                    <textarea id=\"token\" rows=\"4\" readonly>"@
}

/// The warning page after the token.
pub open spec fn warning_page_end() -> Seq<char> {
    "</textarea>\n                    <button id=\"copyBtn\" onclick=\"copyToken()\">📋 Copiar Token</button>\n                </div>\n            </div>\n        </body>\n        </html>\n        "@
}

/// The error page up to the error.
pub open spec fn error_page_start() -> Seq<char> {
    "\n        <!DOCTYPE html>\n        <html>\n        <head>\n            <title>ClickUp OAuth - Erro</title>\n            <meta charset=\"UTF-8\">\n            <style>\n                body { font-family: -apple-system, BlinkMacSystemFont, 'Segoe UI', Arial, sans-serif;\n                       max-width: 600px; margin: 50px auto; padding: 20px; background: #f5f5f5; }\n                .container { background: white; padding: 30px; border-radius: 12px; box-shadow: 0 2px 10px rgba(0,0,0,0.1); }\n                .error { background: #f8d7da; border: 2px solid #dc3545; padding: 20px; border-radius: 8px; }\n                h1 { color: #721c24; margin-top: 0; }\n                a { color: #007bff; text-decoration: none; font-weight: bold; }\n                a:hover { text-decoration: underline; }\n            </style>\n        </head>\n        <body>\n            <div class=\"container\">\n                <div class=\"error\">\n                    <h1>❌ Erro na Autorização</h1>\n                    <p><strong>Erro:</strong> "@
}

/// The error page after the error.
pub open spec fn error_page_end() -> Seq<char> {
    "</p>\n                    <p><a href=\"/auth/clickup\">← Tentar novamente</a></p>\n                </div>\n            </div>\n        </body>\n        </html>\n        "@
}

/// The list item of an authorized workspace.
pub open spec fn team_item(t: AuthorizedTeam) -> Seq<char> {
    "<li><strong>"@ + t.name@ + "</strong> (ID: "@ + t.id@ + ")</li>"@
}

/// The box that lists the authorized workspaces, one item per line; nothing when they are
/// not known.
pub open spec fn teams_html_spec(teams: Option<Seq<AuthorizedTeam>>) -> Seq<char> {
    match teams {
        Some(ts) => teams_box_start() + joined(ts.map_values(|t: AuthorizedTeam| team_item(t)), "\n"@) + teams_box_end(),
        None => Seq::empty(),
    }
}

/// The view of optional workspaces.
pub open spec fn opt_teams(teams: Option<&Vec<AuthorizedTeam>>) -> Option<Seq<AuthorizedTeam>> {
    match teams {
        Some(ts) => Some(ts@),
        None => None,
    }
}

/// The box that lists the authorized workspaces.
pub fn teams_html(teams: Option<&Vec<AuthorizedTeam>>) -> (r: String)
    ensures
        r@ == teams_html_spec(opt_teams(teams)),
{
    match teams {
        Some(ts) => {
            let ghost items = ts@.map_values(|t: AuthorizedTeam| team_item(t));
            let mut out = owned("\n            <div class=\"teams-box\">\n                <h3>✅ Workspaces Autorizados:</h3>\n                <ul>");
            let ghost start = out@;
            let mut i: usize = 0;
            while i < ts.len()
                invariant
                    i <= ts@.len(),
                    items == ts@.map_values(|t: AuthorizedTeam| team_item(t)),
                    out@ == start + joined(items.take(i as int), "\n"@),
                decreases ts@.len() - i,
            {
                let ghost before = out@;
                if i > 0 {
                    push_str(&mut out, "\n");
                }
                push_str(&mut out, "<li><strong>");
                push_str(&mut out, ts[i].name.as_str());
                push_str(&mut out, "</strong> (ID: ");
                push_str(&mut out, ts[i].id.as_str());
                push_str(&mut out, ")</li>");
                proof {
                    let pre = items.take(i + 1);
                    assert(pre.drop_last() == items.take(i as int));
                    assert(pre.last() == team_item(ts@[i as int]));
                    if i == 0 {
                        assert(pre.len() == 1);
                        assert(joined(items.take(0), "\n"@) == Seq::<char>::empty());
                        assert(out@ =~= start + pre[0]);
                    } else {
                        assert(out@ =~= start + (joined(items.take(i as int), "\n"@) + "\n"@ + team_item(ts@[i as int])));
                    }
                }
                i = i + 1;
            }
            assert(items.take(i as int) == items);
            push_str(&mut out, "</ul>\n            </div>\n            ");
            out
        },
        None => String::new(),
    }
}

/// The page shown when the token was obtained and saved.
pub fn success_page(token: &str, teams: Option<&Vec<AuthorizedTeam>>) -> (r: String)
    ensures
        r@ == success_page_start() + teams_html_spec(opt_teams(teams)) + success_page_middle() + token@ + success_page_end(),
{
    let t = teams_html(teams);
    let mut out = owned("\n        <!DOCTYPE html>\n        <html>\n        <head>\n            <title>ClickUp OAuth - Sucesso</title>\n            <meta charset=\"UTF-8\">\n            <style>\n                body { font-family: -apple-system, BlinkMacSystemFont, 'Segoe UI', Arial, sans-serif;\n                       max-width: 900px; margin: 50px auto; padding: 20px; background: #f5f5f5; }\n                .container { background: white; padding: 30px; border-radius: 12px; box-shadow: 0 2px 10px rgba(0,0,0,0.1); }\n                .success { background: #d4edda; border: 2px solid #28a745; padding: 20px; border-radius: 8px; margin-bottom: 20px; }\n                .token-box { background: #fff3cd; padding: 20px; border: 2px solid #ffc107; border-radius: 8px; margin: 20px 0; }\n                .teams-box { background: #d1ecf1; padding: 20px; border: 2px solid #17a2b8; border-radius: 8px; margin: 20px 0; }\n                textarea { width: 100%; padding: 12px; font-family: 'Courier New', monospace;\n                           font-size: 11px; border: 1px solid #ddd; border-radius: 4px; resize: vertical; }\n                button { background: #28a745; color: white; padding: 12px 24px; border: none;\n                         border-radius: 6px; cursor: pointer; font-size: 14px; font-weight: bold; }\n                button:hover { background: #218838; }\n                h1 { color: #28a745; margin-top: 0; }\n                h3 { margin-top: 0; color: #333; }\n                ul { padding-left: 20px; }\n                li { margin: 8px 0; }\n                .footer { text-align: center; margin-top: 30px; color: #666; font-size: 12px; }\n            </style>\n            <script>\n                function copyToken() {\n                    const textarea = document.getElementById('token');\n                    textarea.select();\n                    navigator.clipboard.writeText(textarea.value);\n                    const btn = document.getElementById('copyBtn');\n                    btn.textContent = '✅ Copiado!';\n                    setTimeout(() => { btn.textContent = '📋 Copiar Token'; }, 2000);\n                }\n            </script>\n        </head>\n        <body>\n            <div class=\"container\">\n                <div class=\"success\">\n                    <h1>✅ Autorização OAuth2 Concluída!</h1>\n                    <p>Seu token foi gerado e salvo automaticamente no Secret Manager.</p>\n                </div>\n\n                ");
    push_str(&mut out, t.as_str());
    push_str(&mut out, "\n\n                <div class=\"token-box\">\n                    <h3>🔑 Access Token (para referência):</h3>\n                    <textarea id=\"token\" rows=\"4\" readonly>");
    push_str(&mut out, token);
    push_str(&mut out, "</textarea>\n                    <button id=\"copyBtn\" onclick=\"copyToken()\">📋 Copiar Token</button>\n                </div>\n\n                <div class=\"footer\">\n                    <p>✅ Sistema pronto para usar! O middleware já pode criar folders e spaces no ClickUp.</p>\n                    <p>Você pode fechar esta janela.</p>\n                </div>\n            </div>\n        </body>\n        </html>\n        ");
    out
}

/// The page shown when the token was obtained but could not be saved.
pub fn success_with_warning_page(token: &str, warning: &str, teams: Option<&Vec<AuthorizedTeam>>) -> (r: String)
    ensures
        r@ == warning_page_start() + warning@ + warning_page_after_warning() + teams_html_spec(opt_teams(teams))
            + warning_page_middle() + token@ + warning_page_end(),
{
    let t = teams_html(teams);
    let mut out = owned("\n        <!DOCTYPE html>\n        <html>\n        <head>\n            <title>ClickUp OAuth - Atenção</title>\n            <meta charset=\"UTF-8\">\n            <style>\n                body { font-family: -apple-system, BlinkMacSystemFont, 'Segoe UI', Arial, sans-serif;\n                       max-width: 900px; margin: 50px auto; padding: 20px; background: #f5f5f5; }\n                .container { background: white; padding: 30px; border-radius: 12px; box-shadow: 0 2px 10px rgba(0,0,0,0.1); }\n                .warning { background: #fff3cd; border: 2px solid #ffc107; padding: 20px; border-radius: 8px; margin-bottom: 20px; }\n                .token-box { background: #f8d7da; padding: 20px; border: 2px solid #dc3545; border-radius: 8px; margin: 20px 0; }\n                .teams-box { background: #d1ecf1; padding: 20px; border: 2px solid #17a2b8; border-radius: 8px; margin: 20px 0; }\n                textarea { width: 100%; padding: 12px; font-family: 'Courier New', monospace;\n                           font-size: 11px; border: 1px solid #ddd; border-radius: 4px; resize: vertical; }\n                button { background: #dc3545; color: white; padding: 12px 24px; border: none;\n                         border-radius: 6px; cursor: pointer; font-size: 14px; font-weight: bold; }\n                button:hover { background: #c82333; }\n                h1 { color: #856404; margin-top: 0; }\n                h3 { margin-top: 0; color: #333; }\n                ul { padding-left: 20px; }\n                li { margin: 8px 0; }\n            </style>\n            <script>\n                function copyToken() {\n                    const textarea = document.getElementById('token');\n                    textarea.select();\n                    navigator.clipboard.writeText(textarea.value);\n                    const btn = document.getElementById('copyBtn');\n                    btn.textContent = '✅ Copiado!';\n                    setTimeout(() => { btn.textContent = '📋 Copiar Token'; }, 2000);\n                }\n            </script>\n        </head>\n        <body>\n            <div class=\"container\">\n                <div class=\"warning\">\n                    <h1>⚠️  Token Obtido, mas com Aviso</h1>\n                    <p>O token foi gerado com sucesso, mas houve um problema ao salvar automaticamente:</p>\n                    <p><strong>");
    push_str(&mut out, warning);
    push_str(&mut out, "</strong></p>\n                    <p>Por favor, copie o token abaixo e salve manualmente usando o comando:</p>\n                    <pre>gcloud secrets versions add clickup-oauth-token --data-file=-</pre>\n                </div>\n\n                ");
    push_str(&mut out, t.as_str());
    push_str(&mut out, "\n\n                <div class=\"token-box\">\n                    <h3>🔑 Access Token:</h3>\n                    <textarea id=\"token\" rows=\"4\" readonly>");
    push_str(&mut out, token);
    push_str(&mut out, "</textarea>\n                    <button id=\"copyBtn\" onclick=\"copyToken()\">📋 Copiar Token</button>\n                </div>\n            </div>\n        </body>\n        </html>\n        ");
    out
}

/// The page shown when ClickUp reported an error.
pub fn error_page(error: &str) -> (r: String)
    ensures
        r@ == error_page_start() + error@ + error_page_end(),
{
    let mut out = owned("\n        <!DOCTYPE html>\n        <html>\n        <head>\n            <title>ClickUp OAuth - Erro</title>\n            <meta charset=\"UTF-8\">\n            <style>\n                body { font-family: -apple-system, BlinkMacSystemFont, 'Segoe UI', Arial, sans-serif;\n                       max-width: 600px; margin: 50px auto; padding: 20px; background: #f5f5f5; }\n                .container { background: white; padding: 30px; border-radius: 12px; box-shadow: 0 2px 10px rgba(0,0,0,0.1); }\n                .error { background: #f8d7da; border: 2px solid #dc3545; padding: 20px; border-radius: 8px; }\n                h1 { color: #721c24; margin-top: 0; }\n                a { color: #007bff; text-decoration: none; font-weight: bold; }\n                a:hover { text-decoration: underline; }\n            </style>\n        </head>\n        <body>\n            <div class=\"container\">\n                <div class=\"error\">\n                    <h1>❌ Erro na Autorização</h1>\n                    <p><strong>Erro:</strong> ");
    push_str(&mut out, error);
    push_str(&mut out, "</p>\n                    <p><a href=\"/auth/clickup\">← Tentar novamente</a></p>\n                </div>\n            </div>\n        </body>\n        </html>\n        ");
    out
}

} // verus!
