//! The scripts that pages are given, word for word.
use vstd::prelude::*;

use crate::contents::{
    LOCAL_STORAGE, READ_DOCUMENT, READ_DOCUMENT_BYTES, SESSION_STORAGE, TITLE, WRITE_DOCUMENT,
};
use crate::element::SCROLL_INTO_VIEW;
use crate::stealth::{
    HEADED, HEADLESS, HIDE_CHROME, HIDE_PERMISSIONS, HIDE_PLUGINS, HIDE_WEBDRIVER,
    HIDE_WEBGL_VENDOR, PLATFORM, PLATFORM_PATTERN, SPOOF_CHROME, SPOOF_MIME_TYPES,
    SPOOF_PERMISSIONS, SPOOF_PLUGINS, SPOOF_WEBDRIVER, SPOOF_WEBGL, STEALTH_USER_AGENT,
};

verus! {

/// What stealth mode has new documents run.
pub proof fn scripts_of_stealth_mode()
    ensures
        HIDE_WEBDRIVER@ == "
                    Object.defineProperty(
                        navigator,
                        'webdriver',
                        { get: () => undefined }
                    );
                "@,
        HIDE_PERMISSIONS@ == "
                    const originalQuery = window.navigator.permissions.query;
                    window.navigator.permissions.__proto__.query = parameters => {
                        return parameters.name === 'notifications'
                            ? Promise.resolve({ state: Notification.permission })
                            : originalQuery(parameters);
                    }
                "@,
        HIDE_PLUGINS@ == "
                    Object.defineProperty(
                        navigator,
                        'plugins',
                        {
                            get: () => [
                                { filename: 'internal-pdf-viewer' },
                                { filename: 'adsfkjlkjhalkh' },
                                { filename: 'internal-nacl-plugin '}
                            ],
                        }
                    );
                "@,
        HIDE_WEBGL_VENDOR@ == "
                    const getParameter = WebGLRenderingContext.getParameter;
                    WebGLRenderingContext.prototype.getParameter = function (parameter) {
                        if (parameter === 37445) {
                            return 'Google Inc. (NVIDIA)';
                        }
    
                        if (parameter === 37446) {
                            return 'ANGLE (NVIDIA, NVIDIA GeForce GTX 1050 Direct3D11 vs_5_0 ps_5_0, D3D11-27.21.14.5671)';
                        }
    
                        return getParameter(parameter);
                    };
                "@,
        HIDE_CHROME@ == "window.chrome = { runtime: {} };"@,
{
}

/// What spoofing has new documents run.
pub proof fn scripts_of_spoofing()
    ensures
        SPOOF_CHROME@ == "window.chrome = { runtime: {} };"@,
        SPOOF_PERMISSIONS@ == "const originalQuery = window.navigator.permissions.query;
        window.navigator.permissions.__proto__.query = parameters =>
        parameters.name === 'notifications'
            ? Promise.resolve({state: Notification.permission})
            : originalQuery(parameters);"@,
        SPOOF_PLUGINS@ == "Object.defineProperty(navigator, 'plugins', { get: () => [
                {filename:'dox-pdf-viewer'},
                {filename:'chewsday'},
                {filename:'internal-nacl-plugin'},
                {filename:'fuck-your-anti-bot'},
              ], });"@,
        SPOOF_MIME_TYPES@ == "Object.defineProperty(navigator, 'mimeTypes', { get: () =>  [] });"@,
        SPOOF_WEBDRIVER@ == "Object.defineProperty(navigator, 'webdriver', {get: () => undefined});"@,
        SPOOF_WEBGL@ == "const getParameter = WebGLRenderingContext.getParameter;
            WebGLRenderingContext.prototype.getParameter = function(parameter) {
            // UNMASKED_VENDOR_WEBGL
            if (parameter === 37445) {
                return 'Google Inc. (NVIDIA)';
            }
            // UNMASKED_RENDERER_WEBGL
            if (parameter === 37446) {
                return 'ANGLE (NVIDIA, NVIDIA GeForce GTX 1050 Direct3D11 vs_5_0 ps_5_0, D3D11-27.21.14.5671)';
            }

            return getParameter(parameter);
        };"@,
{
}

/// What browsers and platforms call themselves.
pub proof fn names_of_browsers()
    ensures
        STEALTH_USER_AGENT@ == "Mozilla/5.0 (Windows NT 11.0; Win64; x64) AppleWebKit/537.36 (KHTML, like Gecko) Chrome/107.0.5296.0 Safari/537.36"@,
        HEADLESS@ == "HeadlessChrome/"@,
        HEADED@ == "Chrome/"@,
        PLATFORM_PATTERN@ == "\\(([^)]+)\\)"@,
        PLATFORM@ == "(Windows NT 10.0; Win64; x64)"@,
{
}

/// What the document is read and written with, and where its items are stored.
pub proof fn scripts_on_the_document()
    ensures
        WRITE_DOCUMENT@ == "(html) => {
            document.open();
            document.write(html);
            document.close();
        }"@,
        READ_DOCUMENT@ == "{
          let retVal = '';
          if (document.doctype) {
            retVal = new XMLSerializer().serializeToString(document.doctype);
          }
          if (document.documentElement) {
            retVal += document.documentElement.outerHTML;
          }
          retVal
      }
      "@,
        READ_DOCUMENT_BYTES@ == "{
            let retVal = '';
            if (document.doctype) {
            retVal = new XMLSerializer().serializeToString(document.doctype);
            }
            if (document.documentElement) {
            retVal += document.documentElement.outerHTML;
            }
            retVal
        }
        "@,
        TITLE@ == "document.title"@,
        LOCAL_STORAGE@ == "localStorage"@,
        SESSION_STORAGE@ == "sessionStorage"@,
{
}

/// What an element is scrolled into view with.
pub proof fn scripts_on_an_element()
    ensures
        SCROLL_INTO_VIEW@ == "async function() {
                if (!this.isConnected)
                    return 'Node is detached from document';
                if (this.nodeType !== Node.ELEMENT_NODE)
                    return 'Node is not of type HTMLElement';

                const visibleRatio = await new Promise(resolve => {
                    const observer = new IntersectionObserver(entries => {
                        resolve(entries[0].intersectionRatio);
                        observer.disconnect();
                    });
                    observer.observe(this);
                });

                if (visibleRatio !== 1.0)
                    this.scrollIntoView({
                        block: 'center',
                        inline: 'center',
                        behavior: 'smooth'
                    });
                return false;
            }"@,
{
}

} // verus!
